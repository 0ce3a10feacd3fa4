//! Persistence encoding: one collection's accumulated records as a single
//! JSON array, and the deterministic sink name derived from the collection's
//! display name. Writing the encoded text to durable storage is the
//! caller's concern.

use vstd::prelude::*;
use crate::normalize::{NormalizedRecord, RecModel};
use crate::numbers::{int_str, i64_to_dec, scaled_str, scaled_text};
use crate::text::{json_escaped, push_char, quote_into};

verus! {

/// A character sequence as a JSON string literal, quotes included.
pub open spec fn json_quoted(s: Seq<char>) -> Seq<char> {
    seq!['"'] + json_escaped(s) + seq!['"']
}

/// One record as a JSON object: every field present, keys in lexicographic
/// order, prices reported in major units.
pub open spec fn record_json(m: RecModel) -> Seq<char> {
    "{\"gross_listing_price\":"@ + scaled_str(m.gross_listing_price_minor)
        + ",\"image_uri\":"@ + json_quoted(m.image_uri)
        + ",\"last_sale_price\":"@ + scaled_str(m.last_sale_price_minor)
        + ",\"last_sale_timestamp\":"@ + int_str(m.last_sale_timestamp as int)
        + ",\"name\":"@ + json_quoted(m.name)
        + ",\"onchain_id\":"@ + json_quoted(m.onchain_id)
        + ",\"owner\":"@ + json_quoted(m.owner)
        + ",\"rarity_rank_hrtt\":"@ + int_str(m.rarity_rank_hrtt as int)
        + ",\"rarity_rank_stat\":"@ + int_str(m.rarity_rank_stat as int)
        + ",\"rarity_rank_tn\":"@ + int_str(m.rarity_rank_tn as int)
        + "}"@
}

/// The records joined with commas, in order.
pub open spec fn joined_records(ms: Seq<RecModel>) -> Seq<char>
    decreases ms.len(),
{
    if ms.len() == 0 {
        Seq::empty()
    } else if ms.len() == 1 {
        record_json(ms[0])
    } else {
        joined_records(ms.drop_last()) + seq![','] + record_json(ms.last())
    }
}

/// The complete persisted encoding: a JSON array of the records, in order.
pub open spec fn records_json(ms: Seq<RecModel>) -> Seq<char> {
    seq!['['] + joined_records(ms) + seq![']']
}

/// The record models behind a vector of records.
pub open spec fn models_of(rs: Seq<NormalizedRecord>) -> Seq<RecModel> {
    rs.map_values(|r: NormalizedRecord| r@)
}

#[verifier::rlimit(100)]
fn encode_record_into(out: &mut String, r: &NormalizedRecord)
    ensures
        final(out)@ == old(out)@ + record_json(r@),
{
    out.append("{\"gross_listing_price\":");
    let gross = scaled_text(r.gross_listing_price_minor);
    out.append(gross.as_str());
    out.append(",\"image_uri\":");
    quote_into(out, r.image_uri.as_str());
    out.append(",\"last_sale_price\":");
    let sale = scaled_text(r.last_sale_price_minor);
    out.append(sale.as_str());
    out.append(",\"last_sale_timestamp\":");
    let ts = i64_to_dec(r.last_sale_timestamp);
    out.append(ts.as_str());
    out.append(",\"name\":");
    quote_into(out, r.name.as_str());
    out.append(",\"onchain_id\":");
    quote_into(out, r.onchain_id.as_str());
    out.append(",\"owner\":");
    quote_into(out, r.owner.as_str());
    out.append(",\"rarity_rank_hrtt\":");
    let hrtt = i64_to_dec(r.rarity_rank_hrtt);
    out.append(hrtt.as_str());
    out.append(",\"rarity_rank_stat\":");
    let stat = i64_to_dec(r.rarity_rank_stat);
    out.append(stat.as_str());
    out.append(",\"rarity_rank_tn\":");
    let tn = i64_to_dec(r.rarity_rank_tn);
    out.append(tn.as_str());
    out.append("}");
    proof {
        assert(out@ =~= old(out)@ + record_json(r@));
    }
}

/// Serializes a collection's records to the JSON array the persister
/// writes: one array, records in gathering order.
pub fn encode_records(records: &Vec<NormalizedRecord>) -> (r: String)
    ensures
        r@ == records_json(models_of(records@)),
{
    let mut out = String::new();
    push_char(&mut out, '[');
    let n: usize = records.len();
    let mut i: usize = 0;
    while i < n
        invariant
            0 <= i <= n,
            n == records@.len(),
            out@ == seq!['['] + joined_records(models_of(records@).take(i as int)),
        decreases n - i,
    {
        if i > 0 {
            push_char(&mut out, ',');
        }
        encode_record_into(&mut out, &records[i]);
        proof {
            let ms = models_of(records@);
            assert(ms.take(i + 1).drop_last() =~= ms.take(i as int));
            assert(ms.take(i + 1).last() == ms[i as int]);
            assert(ms[i as int] == records@[i as int]@);
            if i == 0 {
                assert(out@ =~= seq!['['] + joined_records(ms.take(1)));
            } else {
                assert(out@ =~= seq!['['] + joined_records(ms.take(i + 1)));
            }
        }
        i += 1;
    }
    push_char(&mut out, ']');
    proof {
        assert(models_of(records@).take(n as int) =~= models_of(records@));
        assert(out@ =~= records_json(models_of(records@)));
    }
    out
}

/// The sink a collection's records go to, named deterministically from the
/// collection's display name.
pub fn storage_path(name: &str) -> (r: String)
    ensures
        r@ == "./storage/"@ + name@ + "_paginated_responses.json"@,
{
    let mut out = String::from_str("./storage/");
    out.append(name);
    out.append("_paginated_responses.json");
    out
}

} // verus!
