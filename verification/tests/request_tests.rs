use collection_feed::catalog::extract_documents;
use collection_feed::docs::DocValue;
use collection_feed::numbers::{i64_to_dec, parse_minor_units, scaled_text, u64_to_dec};
use collection_feed::query::{
    generate_main_task_payload, generate_recent_transactions_payload,
    generate_selected_collections_payload, get_task_config, TaskType,
};

fn obj(pairs: Vec<(&str, DocValue)>) -> DocValue {
    DocValue::Object(pairs.into_iter().map(|(k, v)| (k.to_string(), v)).collect())
}

fn text(s: &str) -> DocValue {
    DocValue::Text(s.to_string())
}

#[test]
fn parse_minor_units_accepts_digit_strings() {
    assert_eq!(parse_minor_units("0"), 0);
    assert_eq!(parse_minor_units("123"), 123);
    assert_eq!(parse_minor_units("1500000000"), 1500000000);
    assert_eq!(parse_minor_units("18446744073709551615"), u64::MAX);
}

#[test]
fn parse_minor_units_defaults_on_malformed_strings() {
    assert_eq!(parse_minor_units(""), 0);
    assert_eq!(parse_minor_units("abc"), 0);
    assert_eq!(parse_minor_units("12a"), 0);
    assert_eq!(parse_minor_units("-5"), 0);
    assert_eq!(parse_minor_units("1.5"), 0);
    assert_eq!(parse_minor_units("18446744073709551616"), 0);
    assert_eq!(parse_minor_units("99999999999999999999999"), 0);
}

#[test]
fn decimal_rendering() {
    assert_eq!(u64_to_dec(0), "0");
    assert_eq!(u64_to_dec(907), "907");
    assert_eq!(i64_to_dec(-45), "-45");
    assert_eq!(i64_to_dec(i64::MIN), "-9223372036854775808");
    assert_eq!(scaled_text(1500000000), "1.500000000");
    assert_eq!(scaled_text(0), "0.000000000");
    assert_eq!(scaled_text(12), "0.000000012");
    assert_eq!(scaled_text(3000000000), "3.000000000");
}

#[test]
fn main_task_payload_is_fixed() {
    let p = generate_main_task_payload();
    assert_eq!(
        p,
        "{\"searches\":[{\"collection\":\"nft_collections\",\"q\":\"*\",\"query_by\":\"name,slugDisplay,acronym\"}]}"
    );
    let parsed: serde_json::Value = serde_json::from_str(&p).unwrap();
    assert_eq!(parsed["searches"][0]["q"].as_str().unwrap(), "*");
}

#[test]
fn first_page_payload_has_no_cursor() {
    let p = generate_recent_transactions_payload("madlads");
    let parsed: serde_json::Value = serde_json::from_str(&p).unwrap();
    let vars = &parsed[0]["variables"];
    assert_eq!(vars["slug"].as_str().unwrap(), "madlads");
    assert!(vars.get("cursor").is_none());
    assert_eq!(vars["limit"].as_i64().unwrap(), 50);
    assert_eq!(vars["filters"]["onlyListings"].as_bool().unwrap(), true);
    assert_eq!(vars["filters"]["listingSources"].as_array().unwrap().len(), 5);
    assert_eq!(parsed[0]["operationName"].as_str().unwrap(), "CollectionMintsV2");
    assert!(parsed[0]["query"].as_str().unwrap().contains("fragment MintWithTx"));
}

#[test]
fn continuation_payload_carries_the_cursor() {
    let p = generate_selected_collections_payload("madlads", "abc123");
    let parsed: serde_json::Value = serde_json::from_str(&p).unwrap();
    let vars = &parsed[0]["variables"];
    assert_eq!(vars["slug"].as_str().unwrap(), "madlads");
    assert_eq!(vars["cursor"].as_str().unwrap(), "abc123");
    assert_eq!(vars["sortBy"].as_str().unwrap(), "ListingPriceAsc");
}

#[test]
fn payload_escapes_its_inputs() {
    let p = generate_selected_collections_payload("sl\"ug", "cu\\rs");
    let parsed: serde_json::Value = serde_json::from_str(&p).unwrap();
    assert_eq!(parsed[0]["variables"]["slug"].as_str().unwrap(), "sl\"ug");
    assert_eq!(parsed[0]["variables"]["cursor"].as_str().unwrap(), "cu\\rs");
}

#[test]
fn task_config_has_fixed_url_payload_and_headers() {
    let cfg = get_task_config(&TaskType::MainPage);
    assert!(cfg.url.starts_with("https://search.tensor.trade/multi_search?"));
    assert_eq!(cfg.payload, generate_main_task_payload());
    assert_eq!(cfg.headers.len(), 3);
    assert_eq!(cfg.headers[0].0, "User-Agent");
    assert_eq!(cfg.headers[1].0, "Content-Type");
    assert_eq!(cfg.headers[1].1, "application/json");
    assert_eq!(cfg.headers[2].0, "X-Typesense-Api-Key");
    assert_eq!(cfg.headers[2].1, "DOCUMENT_SEARCH_ONLY_KEY");
}

#[test]
fn extract_documents_collects_name_stamp_and_stats() {
    let doc = obj(vec![
        ("name", text("Mad Lads")),
        ("updatedAt", DocValue::Num(1700000001)),
        ("statsV2", obj(vec![("volume24h", text("12"))])),
        ("statsOverall", DocValue::Num(4)),
        ("id", text("madlads")),
    ]);
    let body = obj(vec![(
        "results",
        DocValue::List(vec![obj(vec![(
            "hits",
            DocValue::List(vec![obj(vec![("document", doc)])]),
        )])]),
    )]);
    let docs = extract_documents(&body).unwrap();
    assert_eq!(docs.len(), 1);
    assert_eq!(docs[0].name.as_deref(), Some("Mad Lads"));
    assert_eq!(docs[0].updated_at, Some(1700000001));
    let keys: Vec<&str> = docs[0].extra.iter().map(|p| p.0.as_str()).collect();
    assert_eq!(keys, vec!["statsV2", "statsOverall"]);
}

#[test]
fn extract_documents_rejects_missing_container() {
    assert!(extract_documents(&obj(vec![])).is_err());
}
