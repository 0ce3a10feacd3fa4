//! Flattens one raw item document into the fixed output record, with the
//! documented defaults: missing or malformed strings become empty, numbers
//! become zero. Normalization is total and never rejects an item.

use vstd::prelude::*;
use crate::docs::{inner, num_at, str_at, DocValue};
use crate::numbers::{minor_units_of, parse_minor_units};

verus! {

/// The flat record persisted for one listed or sold item. The two price
/// fields hold integer minor units; the encoder reports them in major
/// units, scaled down by one billion.
pub struct NormalizedRecord {
    pub image_uri: String,
    pub gross_listing_price_minor: u64,
    pub last_sale_price_minor: u64,
    pub last_sale_timestamp: i64,
    pub name: String,
    pub onchain_id: String,
    pub owner: String,
    pub rarity_rank_hrtt: i64,
    pub rarity_rank_stat: i64,
    pub rarity_rank_tn: i64,
}

/// The mathematical content of a record.
pub ghost struct RecModel {
    pub image_uri: Seq<char>,
    pub gross_listing_price_minor: u64,
    pub last_sale_price_minor: u64,
    pub last_sale_timestamp: i64,
    pub name: Seq<char>,
    pub onchain_id: Seq<char>,
    pub owner: Seq<char>,
    pub rarity_rank_hrtt: i64,
    pub rarity_rank_stat: i64,
    pub rarity_rank_tn: i64,
}

impl View for NormalizedRecord {
    type V = RecModel;

    open spec fn view(&self) -> RecModel {
        RecModel {
            image_uri: self.image_uri@,
            gross_listing_price_minor: self.gross_listing_price_minor,
            last_sale_price_minor: self.last_sale_price_minor,
            last_sale_timestamp: self.last_sale_timestamp,
            name: self.name@,
            onchain_id: self.onchain_id@,
            owner: self.owner@,
            rarity_rank_hrtt: self.rarity_rank_hrtt,
            rarity_rank_stat: self.rarity_rank_stat,
            rarity_rank_tn: self.rarity_rank_tn,
        }
    }
}

/// What normalization extracts from one raw item document: each field read
/// from its path under the item's `mint` and `tx` sub-objects, with the
/// default wherever the path is missing or has the wrong shape.
pub open spec fn normalized_of(doc: DocValue) -> RecModel {
    RecModel {
        image_uri: str_at(inner(doc, "mint"@), "imageUri"@),
        gross_listing_price_minor: minor_units_of(str_at(inner(doc, "tx"@), "grossAmount"@)),
        last_sale_price_minor: minor_units_of(
            str_at(inner(inner(doc, "mint"@), "lastSale"@), "price"@),
        ),
        last_sale_timestamp: num_at(inner(inner(doc, "mint"@), "lastSale"@), "txAt"@),
        name: str_at(inner(doc, "mint"@), "name"@),
        onchain_id: str_at(inner(doc, "mint"@), "onchainId"@),
        owner: str_at(inner(doc, "mint"@), "owner"@),
        rarity_rank_hrtt: num_at(inner(doc, "mint"@), "rarityRankHrtt"@),
        rarity_rank_stat: num_at(inner(doc, "mint"@), "rarityRankStat"@),
        rarity_rank_tn: num_at(inner(doc, "mint"@), "rarityRankTn"@),
    }
}

/// Normalizes one raw item document. Total over arbitrary input: a corrupt
/// item yields a record of defaults, never an error.
pub fn normalize(doc: &DocValue) -> (r: NormalizedRecord)
    ensures
        r@ == normalized_of(*doc),
{
    let sale_raw = doc.text_at3("mint", "lastSale", "price");
    let gross_raw = doc.text_at2("tx", "grossAmount");
    NormalizedRecord {
        image_uri: doc.text_at2("mint", "imageUri"),
        gross_listing_price_minor: parse_minor_units(gross_raw.as_str()),
        last_sale_price_minor: parse_minor_units(sale_raw.as_str()),
        last_sale_timestamp: doc.num_at3("mint", "lastSale", "txAt"),
        name: doc.text_at2("mint", "name"),
        onchain_id: doc.text_at2("mint", "onchainId"),
        owner: doc.text_at2("mint", "owner"),
        rarity_rank_hrtt: doc.num_at2("mint", "rarityRankHrtt"),
        rarity_rank_stat: doc.num_at2("mint", "rarityRankStat"),
        rarity_rank_tn: doc.num_at2("mint", "rarityRankTn"),
    }
}

} // verus!
