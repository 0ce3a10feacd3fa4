use collection_feed::docs::DocValue;
use collection_feed::normalize::normalize;
use collection_feed::paginate::{PagState, Paginator};
use collection_feed::persist::{encode_records, storage_path};
use collection_feed::query::TaskType;
use collection_feed::resolver::{process_main_page_search_results, Collection};

fn obj(pairs: Vec<(&str, DocValue)>) -> DocValue {
    DocValue::Object(pairs.into_iter().map(|(k, v)| (k.to_string(), v)).collect())
}

fn text(s: &str) -> DocValue {
    DocValue::Text(s.to_string())
}

fn mint_item(name: &str, sale_price: &str, gross: &str) -> DocValue {
    obj(vec![
        (
            "mint",
            obj(vec![
                ("imageUri", text("https://img.example/x.png")),
                ("name", text(name)),
                ("onchainId", text("mint111")),
                ("owner", text("owner111")),
                (
                    "lastSale",
                    obj(vec![("price", text(sale_price)), ("txAt", DocValue::Num(1700000000))]),
                ),
                ("rarityRankHrtt", DocValue::Num(7)),
                ("rarityRankStat", DocValue::Num(8)),
                ("rarityRankTn", DocValue::Num(9)),
            ]),
        ),
        ("tx", obj(vec![("grossAmount", text(gross))])),
    ])
}

fn page_body(mints: Option<Vec<DocValue>>, cursor: Option<&str>) -> DocValue {
    let mut cm: Vec<(&str, DocValue)> = Vec::new();
    if let Some(m) = mints {
        cm.push(("mints", DocValue::List(m)));
    }
    if let Some(c) = cursor {
        cm.push(("page", obj(vec![("endCursor", text(c)), ("hasMore", DocValue::Truth(true))])));
    }
    DocValue::List(vec![obj(vec![("data", obj(vec![("collectionMintsV2", obj(cm))]))])])
}

fn search_body(hits: Vec<(&str, &str)>) -> DocValue {
    let hit_docs: Vec<DocValue> = hits
        .into_iter()
        .map(|(name, id)| obj(vec![("document", obj(vec![("name", text(name)), ("id", text(id))]))]))
        .collect();
    obj(vec![("results", DocValue::List(vec![obj(vec![("hits", DocValue::List(hit_docs))])]))])
}

fn descriptor(limit: u32) -> Collection {
    Collection {
        name: "Mad Lads".to_string(),
        collection_slug: "madlads".to_string(),
        cursor: None,
        max_pages: limit,
    }
}

#[test]
fn normalizer_defaults_on_malformed_input() {
    let r = normalize(&DocValue::Absent);
    assert_eq!(r.image_uri, "");
    assert_eq!(r.gross_listing_price_minor, 0);
    assert_eq!(r.last_sale_price_minor, 0);
    assert_eq!(r.last_sale_timestamp, 0);
    assert_eq!(r.name, "");
    assert_eq!(r.onchain_id, "");
    assert_eq!(r.owner, "");
    assert_eq!(r.rarity_rank_hrtt, 0);
    assert_eq!(r.rarity_rank_stat, 0);
    assert_eq!(r.rarity_rank_tn, 0);

    let twisted = obj(vec![
        ("mint", DocValue::List(vec![DocValue::Num(3)])),
        ("tx", obj(vec![("grossAmount", DocValue::Num(5))])),
    ]);
    let r2 = normalize(&twisted);
    assert_eq!(r2.name, "");
    assert_eq!(r2.gross_listing_price_minor, 0);
    assert_eq!(r2.last_sale_price_minor, 0);
}

#[test]
fn normalizer_reads_every_field() {
    let r = normalize(&mint_item("Lad #1", "1500000000", "2000000000"));
    assert_eq!(r.image_uri, "https://img.example/x.png");
    assert_eq!(r.name, "Lad #1");
    assert_eq!(r.onchain_id, "mint111");
    assert_eq!(r.owner, "owner111");
    assert_eq!(r.last_sale_price_minor, 1500000000);
    assert_eq!(r.gross_listing_price_minor, 2000000000);
    assert_eq!(r.last_sale_timestamp, 1700000000);
    assert_eq!(r.rarity_rank_hrtt, 7);
    assert_eq!(r.rarity_rank_stat, 8);
    assert_eq!(r.rarity_rank_tn, 9);
}

#[test]
fn scaling_law_on_raw_price_strings() {
    let r = normalize(&mint_item("x", "1500000000", "abc"));
    assert_eq!(r.last_sale_price_minor, 1500000000);
    assert_eq!(r.gross_listing_price_minor, 0);
    let encoded = encode_records(&vec![r]);
    let parsed: serde_json::Value = serde_json::from_str(&encoded).unwrap();
    assert_eq!(parsed[0]["last_sale_price"].as_f64().unwrap(), 1.5);
    assert_eq!(parsed[0]["gross_listing_price"].as_f64().unwrap(), 0.0);
}

#[test]
fn resolver_matching_is_case_insensitive() {
    let body = search_body(vec![("madlads", "madlads-id")]);
    let task = TaskType::SelectedCollectionsPrices {
        collection_names: vec!["MadLads".to_string()],
        max_pages: 3,
    };
    let got = process_main_page_search_results(&body, &task).unwrap();
    assert_eq!(got.len(), 1);
    assert_eq!(got[0].name, "madlads");
    assert_eq!(got[0].collection_slug, "madlads-id");
    assert_eq!(got[0].max_pages, 3);
    assert!(got[0].cursor.is_none());
}

#[test]
fn resolver_scenario_matches_only_wanted_names() {
    let body = search_body(vec![("Mad Lads", "madlads"), ("okay bears", "okaybears")]);
    let task = TaskType::SelectedCollectionsPrices {
        collection_names: vec!["Mad Lads".to_string(), "DeGods".to_string()],
        max_pages: 2,
    };
    let got = process_main_page_search_results(&body, &task).unwrap();
    assert_eq!(got.len(), 1);
    assert_eq!(got[0].name, "Mad Lads");
    assert_eq!(got[0].collection_slug, "madlads");
}

#[test]
fn resolver_rejects_missing_container() {
    let task = TaskType::SelectedCollectionsPrices {
        collection_names: vec!["Mad Lads".to_string()],
        max_pages: 2,
    };
    assert!(process_main_page_search_results(&obj(vec![]), &task).is_err());
    assert!(process_main_page_search_results(&DocValue::Absent, &task).is_err());
}

#[test]
fn resolver_skips_hits_without_name_or_id() {
    let hit_without_id = obj(vec![("document", obj(vec![("name", text("Mad Lads"))]))]);
    let body = obj(vec![(
        "results",
        DocValue::List(vec![obj(vec![("hits", DocValue::List(vec![hit_without_id]))])]),
    )]);
    let task = TaskType::SelectedCollectionsPrices {
        collection_names: vec!["mad lads".to_string()],
        max_pages: 2,
    };
    let got = process_main_page_search_results(&body, &task).unwrap();
    assert_eq!(got.len(), 0);
}

#[test]
fn paginator_stops_without_cursor_and_keeps_page_records() {
    let mut p = Paginator::new(descriptor(5));
    let body = page_body(Some(vec![mint_item("a", "1000000000", "0")]), None);
    p.on_page(&body);
    assert_eq!(p.state, PagState::DoneNoMoreData);
    assert_eq!(p.records.len(), 1);
    assert!(p.next_payload().is_none());
}

#[test]
fn paginator_stops_without_items_array() {
    let mut p = Paginator::new(descriptor(5));
    p.on_page(&page_body(None, Some("zzz")));
    assert_eq!(p.state, PagState::DoneNoMoreData);
    assert_eq!(p.records.len(), 0);
}

#[test]
fn page_limit_zero_allows_exactly_one_request() {
    let mut p = Paginator::new(descriptor(0));
    let first = p.next_payload();
    assert!(first.is_some());
    assert!(!first.unwrap().contains("\"cursor\""));
    p.on_page(&page_body(Some(vec![mint_item("a", "0", "0")]), Some("abc123")));
    assert_eq!(p.state, PagState::DoneLimitReached);
    assert!(p.next_payload().is_none());
    assert_eq!(p.records.len(), 1);
}

#[test]
fn pagination_scenario_two_pages() {
    let mut p = Paginator::new(descriptor(5));
    let first = page_body(
        Some(vec![mint_item("a", "0", "0"), mint_item("b", "0", "0")]),
        Some("abc123"),
    );
    p.on_page(&first);
    assert_eq!(p.state, PagState::Continuing);
    assert_eq!(p.collection.cursor.as_deref(), Some("abc123"));
    let cont = p.next_payload().unwrap();
    assert!(cont.contains("\"cursor\":\"abc123\""));
    p.on_page(&page_body(Some(vec![]), None));
    assert_eq!(p.state, PagState::DoneNoMoreData);
    assert_eq!(p.records.len(), 2);
}

#[test]
fn page_limit_bounds_continuation_requests_only() {
    let mut p = Paginator::new(descriptor(1));
    p.on_page(&page_body(Some(vec![mint_item("a", "0", "0")]), Some("c1")));
    assert_eq!(p.state, PagState::Continuing);
    assert_eq!(p.pages_used, 1);
    p.on_page(&page_body(Some(vec![mint_item("b", "0", "0")]), Some("c2")));
    assert_eq!(p.state, PagState::DoneLimitReached);
    assert_eq!(p.pages_used, 1);
    assert_eq!(p.collection.cursor.as_deref(), Some("c2"));
    assert_eq!(p.records.len(), 2);
}

#[test]
fn transport_error_keeps_prior_records_for_persistence() {
    let mut p = Paginator::new(descriptor(5));
    p.on_page(&page_body(Some(vec![mint_item("a", "1500000000", "0")]), Some("tok")));
    assert_eq!(p.state, PagState::Continuing);
    p.on_transport_failure();
    assert_eq!(p.state, PagState::DoneError);
    assert_eq!(p.records.len(), 1);
    let encoded = encode_records(&p.records);
    let parsed: serde_json::Value = serde_json::from_str(&encoded).unwrap();
    assert_eq!(parsed.as_array().unwrap().len(), 1);
    assert_eq!(parsed[0]["name"].as_str().unwrap(), "a");
}

#[test]
fn encoder_produces_exact_json() {
    let r = normalize(&mint_item("Lad \"1\"", "1500000000", "2000000000"));
    let encoded = encode_records(&vec![r]);
    assert_eq!(
        encoded,
        "[{\"gross_listing_price\":2.000000000,\"image_uri\":\"https://img.example/x.png\",\
         \"last_sale_price\":1.500000000,\"last_sale_timestamp\":1700000000,\
         \"name\":\"Lad \\\"1\\\"\",\"onchain_id\":\"mint111\",\"owner\":\"owner111\",\
         \"rarity_rank_hrtt\":7,\"rarity_rank_stat\":8,\"rarity_rank_tn\":9}]"
    );
}

#[test]
fn encoder_empty_records() {
    let encoded = encode_records(&Vec::new());
    assert_eq!(encoded, "[]");
}

#[test]
fn storage_path_is_deterministic() {
    let p = storage_path("Mad Lads");
    assert_eq!(p, "./storage/Mad Lads_paginated_responses.json");
}

#[test]
fn collection_display_string() {
    let c = descriptor(2);
    assert_eq!(c.display_string(), "Name: Mad Lads, ID: madlads");
}
