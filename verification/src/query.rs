//! Request construction: the catalog search configuration and the two graph
//! query payload shapes (first page and cursor continuation). Payload
//! construction is pure; no request is issued here.

use vstd::prelude::*;
use crate::text::{escape_into, json_escaped};

verus! {

/// Which run is being performed: a full catalog sweep, or price collection
/// for a chosen set of collection names with a continuation-page ceiling.
pub enum TaskType {
    MainPage,
    SelectedCollectionsPrices { collection_names: Vec<String>, max_pages: u32 },
}

/// Everything a transport needs for the catalog search call: the endpoint,
/// the request body, and the required headers as plain name/value pairs.
pub struct TaskConfig {
    pub url: String,
    pub payload: String,
    pub headers: Vec<(String, String)>,
}

pub open spec fn search_url() -> Seq<char> {
    "https://search.tensor.trade/multi_search?sort_by=statsV2.volume24h:desc&infix=fallback,off,off&page=1&per_page=250&split_join_tokens=off&exhaustive_search=true&"@
}

pub open spec fn user_agent() -> Seq<char> {
    "Mozilla/5.0 (Windows NT 10.0; Win64; x64) AppleWebKit/537.36 (KHTML, like Gecko) Chrome/58.0.3029.110 Safari/537.3"@
}

/// The fixed catalog search body: every document of the collections index,
/// matched on name, display slug and acronym.
pub open spec fn main_search_payload() -> Seq<char> {
    "{\"searches\":[{\"collection\":\"nft_collections\",\"q\":\"*\",\"query_by\":\"name,slugDisplay,acronym\"}]}"@
}

pub open spec fn payload_head() -> Seq<char> {
    "[{\"operationName\":\"CollectionMintsV2\",\"variables\":{\"slug\":\""@
}

pub open spec fn payload_filters() -> Seq<char> {
    "\",\"sortBy\":\"ListingPriceAsc\",\"limit\":50,\"filters\":{\"rarities\":null,\"traits\":null,\"traitCount\":null,\"nameFilter\":null,\"inscripOrderFilters\":null,\"inscripFilters\":null,\"ownerFilter\":null,\"onlyListings\":true,\"listingSources\":[\"TENSORSWAP\",\"TCOMP\",\"HYPERSPACE\",\"MAGICEDEN_V2\",\"SOLANART\"],\"listingPrices\":null}"@
}

pub open spec fn payload_query() -> Seq<char> {
    "query CollectionMintsV2($slug: String!, $sortBy: CollectionMintsSortBy!, $filters: CollectionMintsFilters, $cursor: String, $limit: Int) {\\n  collectionMintsV2(\\n    slug: $slug\\n    sortBy: $sortBy\\n    filters: $filters\\n    cursor: $cursor\\n    limit: $limit\\n  ) {\\n    mints {\\n      ...MintWithTx\\n      __typename\\n    }\\n    page {\\n      endCursor\\n      hasMore\\n      __typename\\n    }\\n    __typename\\n  }\\n}\\n\\nfragment MintWithTx on MintWithTx {\\n  mint {\\n    ...MintV2\\n    __typename\\n  }\\n  tx {\\n    ...ReducedParsedTx\\n    __typename\\n  }\\n  __typename\\n}\\n\\nfragment MintV2 on MintV2 {\\n  onchainId\\n  slug\\n  compressed\\n  owner\\n  name\\n  imageUri\\n  animationUri\\n  metadataUri\\n  metadataFetchedAt\\n  sellRoyaltyFeeBPS\\n  tokenStandard\\n  tokenEdition\\n  attributes {\\n    trait_type\\n    value\\n    __typename\\n  }\\n  lastSale {\\n    price\\n    txAt\\n    __typename\\n  }\\n  accState\\n  hidden\\n  rarityRankHrtt\\n  rarityRankStat\\n  rarityRankTeam\\n  rarityRankTn\\n  inscription {\\n    ...InscriptionData\\n    __typename\\n  }\\n  tokenProgram\\n  metadataProgram\\n  __typename\\n}\\n\\nfragment InscriptionData on InscriptionData {\\n  inscription\\n  inscriptionData\\n  immutable\\n  order\\n  spl20 {\\n    p\\n    tick\\n    amt\\n    __typename\\n  }\\n  __typename\\n}\\n\\nfragment ReducedParsedTx on ParsedTransaction {\\n  source\\n  txKey\\n  txId\\n  txType\\n  grossAmount\\n  sellerId\\n  buyerId\\n  txAt\\n  blockNumber\\n  txMetadata {\\n    auctionHouse\\n    urlId\\n    sellerRef\\n    tokenAcc\\n    __typename\\n  }\\n  poolOnchainId\\n  __typename\\n}"@
}

/// The continuation request body: same shape as the first page, with the
/// remote-issued cursor included.
pub open spec fn continuation_payload(slug: Seq<char>, cursor: Seq<char>) -> Seq<char> {
    payload_head() + json_escaped(slug) + payload_filters() + ",\"cursor\":\""@ + json_escaped(
        cursor,
    ) + "\"},\"query\":\""@ + payload_query() + "\"}]"@
}

/// The first-page request body: no cursor member at all.
pub open spec fn first_page_payload(slug: Seq<char>) -> Seq<char> {
    payload_head() + json_escaped(slug) + payload_filters() + "},\"query\":\""@ + payload_query()
        + "\"}]"@
}

fn head_text() -> (r: &'static str)
    ensures
        r@ == payload_head(),
{
    "[{\"operationName\":\"CollectionMintsV2\",\"variables\":{\"slug\":\""
}

fn filters_text() -> (r: &'static str)
    ensures
        r@ == payload_filters(),
{
    "\",\"sortBy\":\"ListingPriceAsc\",\"limit\":50,\"filters\":{\"rarities\":null,\"traits\":null,\"traitCount\":null,\"nameFilter\":null,\"inscripOrderFilters\":null,\"inscripFilters\":null,\"ownerFilter\":null,\"onlyListings\":true,\"listingSources\":[\"TENSORSWAP\",\"TCOMP\",\"HYPERSPACE\",\"MAGICEDEN_V2\",\"SOLANART\"],\"listingPrices\":null}"
}

fn query_text() -> (r: &'static str)
    ensures
        r@ == payload_query(),
{
    "query CollectionMintsV2($slug: String!, $sortBy: CollectionMintsSortBy!, $filters: CollectionMintsFilters, $cursor: String, $limit: Int) {\\n  collectionMintsV2(\\n    slug: $slug\\n    sortBy: $sortBy\\n    filters: $filters\\n    cursor: $cursor\\n    limit: $limit\\n  ) {\\n    mints {\\n      ...MintWithTx\\n      __typename\\n    }\\n    page {\\n      endCursor\\n      hasMore\\n      __typename\\n    }\\n    __typename\\n  }\\n}\\n\\nfragment MintWithTx on MintWithTx {\\n  mint {\\n    ...MintV2\\n    __typename\\n  }\\n  tx {\\n    ...ReducedParsedTx\\n    __typename\\n  }\\n  __typename\\n}\\n\\nfragment MintV2 on MintV2 {\\n  onchainId\\n  slug\\n  compressed\\n  owner\\n  name\\n  imageUri\\n  animationUri\\n  metadataUri\\n  metadataFetchedAt\\n  sellRoyaltyFeeBPS\\n  tokenStandard\\n  tokenEdition\\n  attributes {\\n    trait_type\\n    value\\n    __typename\\n  }\\n  lastSale {\\n    price\\n    txAt\\n    __typename\\n  }\\n  accState\\n  hidden\\n  rarityRankHrtt\\n  rarityRankStat\\n  rarityRankTeam\\n  rarityRankTn\\n  inscription {\\n    ...InscriptionData\\n    __typename\\n  }\\n  tokenProgram\\n  metadataProgram\\n  __typename\\n}\\n\\nfragment InscriptionData on InscriptionData {\\n  inscription\\n  inscriptionData\\n  immutable\\n  order\\n  spl20 {\\n    p\\n    tick\\n    amt\\n    __typename\\n  }\\n  __typename\\n}\\n\\nfragment ReducedParsedTx on ParsedTransaction {\\n  source\\n  txKey\\n  txId\\n  txType\\n  grossAmount\\n  sellerId\\n  buyerId\\n  txAt\\n  blockNumber\\n  txMetadata {\\n    auctionHouse\\n    urlId\\n    sellerRef\\n    tokenAcc\\n    __typename\\n  }\\n  poolOnchainId\\n  __typename\\n}"
}

/// The catalog search body; fixed, parameter-free, and side-effect-free.
pub fn generate_main_task_payload() -> (r: String)
    ensures
        r@ == main_search_payload(),
{
    String::from_str(
        "{\"searches\":[{\"collection\":\"nft_collections\",\"q\":\"*\",\"query_by\":\"name,slugDisplay,acronym\"}]}",
    )
}

/// The continuation-page body for one collection identifier and a
/// remote-issued cursor.
pub fn generate_selected_collections_payload(collection_slug: &str, cursor: &str) -> (r: String)
    ensures
        r@ == continuation_payload(collection_slug@, cursor@),
{
    let mut out = String::from_str(head_text());
    escape_into(&mut out, collection_slug);
    out.append(filters_text());
    out.append(",\"cursor\":\"");
    escape_into(&mut out, cursor);
    out.append("\"},\"query\":\"");
    out.append(query_text());
    out.append("\"}]");
    proof {
        assert(out@ =~= continuation_payload(collection_slug@, cursor@));
    }
    out
}

/// The first-page body for one collection identifier: no cursor semantics.
pub fn generate_recent_transactions_payload(slug: &str) -> (r: String)
    ensures
        r@ == first_page_payload(slug@),
{
    let mut out = String::from_str(head_text());
    escape_into(&mut out, slug);
    out.append(filters_text());
    out.append("},\"query\":\"");
    out.append(query_text());
    out.append("\"}]");
    proof {
        assert(out@ =~= first_page_payload(slug@));
    }
    out
}

/// The catalog search configuration: the fixed endpoint and body, and the
/// three required headers. The same catalog search opens both task kinds,
/// so the configuration does not vary with the task.
pub fn get_task_config(task_type: &TaskType) -> (r: TaskConfig)
    ensures
        r.url@ == search_url(),
        r.payload@ == main_search_payload(),
        r.headers@.len() == 3,
        r.headers@[0].0@ == "User-Agent"@ && r.headers@[0].1@ == user_agent(),
        r.headers@[1].0@ == "Content-Type"@ && r.headers@[1].1@ == "application/json"@,
        r.headers@[2].0@ == "X-Typesense-Api-Key"@ && r.headers@[2].1@
            == "DOCUMENT_SEARCH_ONLY_KEY"@,
{
    let _ = task_type;
    let mut headers: Vec<(String, String)> = Vec::new();
    headers.push(
        (
            String::from_str("User-Agent"),
            String::from_str(
                "Mozilla/5.0 (Windows NT 10.0; Win64; x64) AppleWebKit/537.36 (KHTML, like Gecko) Chrome/58.0.3029.110 Safari/537.3",
            ),
        ),
    );
    headers.push((String::from_str("Content-Type"), String::from_str("application/json")));
    headers.push(
        (String::from_str("X-Typesense-Api-Key"), String::from_str("DOCUMENT_SEARCH_ONLY_KEY")),
    );
    TaskConfig {
        url: String::from_str(
            "https://search.tensor.trade/multi_search?sort_by=statsV2.volume24h:desc&infix=fallback,off,off&page=1&per_page=250&split_join_tokens=off&exhaustive_search=true&",
        ),
        payload: generate_main_task_payload(),
        headers,
    }
}

} // verus!
