//! The paginator: drives the cursor loop for one collection. It owns the
//! descriptor for the duration of the loop, turns each page body into
//! normalized records, chains the remote-issued cursor, and decides
//! continuation or termination. Issuing the requests is the caller's
//! concern: the paginator hands out the next request body and consumes the
//! outcome of each call.

use vstd::prelude::*;
use crate::docs::{field_of, inner, DocValue};
use crate::normalize::{normalize, normalized_of, NormalizedRecord, RecModel};
use crate::query::{
    continuation_payload, first_page_payload, generate_recent_transactions_payload,
    generate_selected_collections_payload,
};
use crate::resolver::Collection;

verus! {

/// Where one collection's pagination stands. The first page is pending, a
/// continuation is pending, or the loop is over: the remote data ran out,
/// a request failed, or the continuation-page ceiling was reached.
#[derive(PartialEq, Eq, Structural, Clone, Copy, Debug)]
pub enum PagState {
    FirstPage,
    Continuing,
    DoneNoMoreData,
    DoneError,
    DoneLimitReached,
}

/// The first element of the response array, where the graph API nests its
/// payload.
pub open spec fn body_root(body: DocValue) -> DocValue {
    match body {
        DocValue::List(v) => if v@.len() > 0 {
            v@[0]
        } else {
            DocValue::Absent
        },
        _ => DocValue::Absent,
    }
}

/// The page's item documents, when the response carries a mints array.
pub open spec fn mints_of(body: DocValue) -> Option<Seq<DocValue>> {
    match field_of(inner(inner(body_root(body), "data"@), "collectionMintsV2"@), "mints"@) {
        Some(DocValue::List(v)) => Some(v@),
        _ => None,
    }
}

/// The continuation token the page carries, if any.
pub open spec fn cursor_of(body: DocValue) -> Option<Seq<char>> {
    match field_of(
        inner(inner(inner(body_root(body), "data"@), "collectionMintsV2"@), "page"@),
        "endCursor"@,
    ) {
        Some(DocValue::Text(s)) => Some(s@),
        _ => None,
    }
}

/// The record models behind a vector of records.
pub open spec fn rec_models(rs: Seq<NormalizedRecord>) -> Seq<RecModel> {
    rs.map_values(|r: NormalizedRecord| r@)
}

proof fn lemma_rec_models_push(rs: Seq<NormalizedRecord>, r: NormalizedRecord)
    ensures
        rec_models(rs.push(r)) == rec_models(rs).push(r@),
{
    assert forall|k: int| 0 <= k < rs.len() + 1 implies rec_models(rs.push(r))[k] == rec_models(
        rs,
    ).push(r@)[k] by {
        if k < rs.len() {
            assert(rs.push(r)[k] == rs[k]);
        } else {
            assert(rs.push(r)[k] == r);
        }
    }
    assert(rec_models(rs.push(r)) =~= rec_models(rs).push(r@));
}

/// One page's items, each normalized, in page order.
pub open spec fn norm_all(items: Seq<DocValue>) -> Seq<RecModel>
    decreases items.len(),
{
    if items.len() == 0 {
        Seq::empty()
    } else {
        norm_all(items.drop_last()).push(normalized_of(items.last()))
    }
}

/// The mathematical state of one collection's pagination.
#[verifier::ext_equal]
pub ghost struct PagModel {
    pub name: Seq<char>,
    pub slug: Seq<char>,
    pub cursor: Option<Seq<char>>,
    pub limit: u32,
    pub pages_used: u32,
    pub state: PagState,
    pub records: Seq<RecModel>,
}

impl PagModel {
    /// A continuation is only ever pending with a remote-issued cursor in
    /// hand, and continuations never outrun the ceiling.
    pub open spec fn wf(self) -> bool {
        &&& (self.state == PagState::Continuing ==> self.cursor is Some)
        &&& self.pages_used <= self.limit
    }

    /// Whether another request is pending.
    pub open spec fn live(self) -> bool {
        self.state == PagState::FirstPage || self.state == PagState::Continuing
    }
}

/// How a successful page response advances the pagination. No mints array
/// means the expected data ran out; otherwise the page's items are
/// normalized and appended, and the loop continues only when the page
/// carries a cursor and the ceiling leaves room: the counter bounds
/// continuation requests alone, so the first page is always free.
pub open spec fn step_page(m: PagModel, body: DocValue) -> PagModel {
    match mints_of(body) {
        None => PagModel { state: PagState::DoneNoMoreData, ..m },
        Some(items) => {
            let recs = m.records + norm_all(items);
            match cursor_of(body) {
                None => PagModel { records: recs, state: PagState::DoneNoMoreData, ..m },
                Some(tok) => if m.pages_used >= m.limit {
                    PagModel {
                        records: recs,
                        cursor: Some(tok),
                        state: PagState::DoneLimitReached,
                        ..m
                    }
                } else {
                    PagModel {
                        records: recs,
                        cursor: Some(tok),
                        pages_used: (m.pages_used + 1) as u32,
                        state: PagState::Continuing,
                        ..m
                    }
                },
            }
        },
    }
}

/// Pagination for one collection descriptor.
pub struct Paginator {
    pub collection: Collection,
    pub pages_used: u32,
    pub state: PagState,
    pub records: Vec<NormalizedRecord>,
}

impl View for Paginator {
    type V = PagModel;

    open spec fn view(&self) -> PagModel {
        PagModel {
            name: self.collection.name@,
            slug: self.collection.collection_slug@,
            cursor: match self.collection.cursor {
                Some(c) => Some(c@),
                None => None,
            },
            limit: self.collection.max_pages,
            pages_used: self.pages_used,
            state: self.state,
            records: rec_models(self.records@),
        }
    }
}

/// The page's item documents, as held by the response value.
fn mints_in<'a>(body: &'a DocValue) -> (r: Option<&'a Vec<DocValue>>)
    ensures
        match r {
            Some(v) => mints_of(*body) == Some(v@),
            None => mints_of(*body) is None,
        },
{
    match body {
        DocValue::List(arr) => {
            if arr.len() > 0 {
                match arr[0].field("data") {
                    Some(d) => match d.field("collectionMintsV2") {
                        Some(c) => match c.field("mints") {
                            Some(DocValue::List(v)) => Some(v),
                            _ => None,
                        },
                        None => None,
                    },
                    None => None,
                }
            } else {
                None
            }
        },
        _ => None,
    }
}

/// The continuation token held by the response value.
fn cursor_in<'a>(body: &'a DocValue) -> (r: Option<&'a String>)
    ensures
        match r {
            Some(s) => cursor_of(*body) == Some(s@),
            None => cursor_of(*body) is None,
        },
{
    match body {
        DocValue::List(arr) => {
            if arr.len() > 0 {
                match arr[0].field("data") {
                    Some(d) => match d.field("collectionMintsV2") {
                        Some(c) => match c.field("page") {
                            Some(p) => match p.field("endCursor") {
                                Some(DocValue::Text(s)) => Some(s),
                                _ => None,
                            },
                            None => None,
                        },
                        None => None,
                    },
                    None => None,
                }
            } else {
                None
            }
        },
        _ => None,
    }
}

impl Paginator {
    /// Begins pagination for one descriptor: first page pending, no records
    /// gathered, no continuation used.
    pub fn new(collection: Collection) -> (p: Paginator)
        ensures
            p@ == (PagModel {
                name: collection@.name,
                slug: collection@.collection_slug,
                cursor: collection@.cursor,
                limit: collection@.max_pages,
                pages_used: 0,
                state: PagState::FirstPage,
                records: Seq::empty(),
            }),
            p@.wf(),
    {
        let p = Paginator {
            collection,
            pages_used: 0,
            state: PagState::FirstPage,
            records: Vec::new(),
        };
        proof {
            assert(p@.records =~= Seq::<RecModel>::empty());
            assert(p@ =~= PagModel {
                name: p.collection@.name,
                slug: p.collection@.collection_slug,
                cursor: p.collection@.cursor,
                limit: p.collection@.max_pages,
                pages_used: 0,
                state: PagState::FirstPage,
                records: Seq::empty(),
            });
        }
        p
    }

    /// The body of the next request to issue: the first-page shape before
    /// anything was fetched, the continuation shape with the stored cursor
    /// afterwards, and nothing once the loop is over.
    pub fn next_payload(&self) -> (r: Option<String>)
        requires
            self@.wf(),
        ensures
            match self@.state {
                PagState::FirstPage => r matches Some(p) && p@ == first_page_payload(self@.slug),
                PagState::Continuing => r matches Some(p) && p@ == continuation_payload(
                    self@.slug,
                    self@.cursor->Some_0,
                ),
                _ => r is None,
            },
    {
        match self.state {
            PagState::FirstPage => Some(
                generate_recent_transactions_payload(self.collection.collection_slug.as_str()),
            ),
            PagState::Continuing => match &self.collection.cursor {
                Some(cur) => Some(
                    generate_selected_collections_payload(
                        self.collection.collection_slug.as_str(),
                        cur.as_str(),
                    ),
                ),
                None => {
                    proof {
                        assert(false);
                    }
                    None
                },
            },
            _ => None,
        }
    }

    /// A request failed: pagination for this collection stops at once, and
    /// every record gathered so far is retained for persistence.
    pub fn on_transport_failure(&mut self)
        requires
            old(self)@.wf(),
        ensures
            final(self)@ == (PagModel { state: PagState::DoneError, ..old(self)@ }),
            final(self)@.wf(),
    {
        self.state = PagState::DoneError;
        proof {
            assert(self@ =~= PagModel { state: PagState::DoneError, ..old(self)@ });
        }
    }

    /// Consumes one successful page response.
    pub fn on_page(&mut self, body: &DocValue)
        requires
            old(self)@.wf(),
            old(self)@.live(),
        ensures
            final(self)@ == step_page(old(self)@, *body),
            final(self)@.wf(),
    {
        match mints_in(body) {
            None => {
                self.state = PagState::DoneNoMoreData;
                proof {
                    assert(self@ =~= step_page(old(self)@, *body));
                }
            },
            Some(mints) => {
                let ghost items: Seq<DocValue> = mints@;
                let n: usize = mints.len();
                let mut i: usize = 0;
                while i < n
                    invariant
                        0 <= i <= n,
                        n == items.len(),
                        items == mints@,
                        self.collection == old(self).collection,
                        self.pages_used == old(self).pages_used,
                        self.state == old(self).state,
                        rec_models(self.records@) == old(self)@.records + norm_all(
                            items.take(i as int),
                        ),
                    decreases n - i,
                {
                    let ghost prev = self.records@;
                    let rec = normalize(&mints[i]);
                    self.records.push(rec);
                    proof {
                        lemma_rec_models_push(prev, rec);
                        let t = items.take(i + 1);
                        assert(t.drop_last() =~= items.take(i as int));
                        assert(t.last() == items[i as int]);
                        assert(norm_all(t) == norm_all(items.take(i as int)).push(
                            normalized_of(items[i as int]),
                        ));
                        assert(rec_models(self.records@) =~= old(self)@.records + norm_all(t));
                    }
                    i += 1;
                }
                proof {
                    assert(items.take(n as int) =~= items);
                }
                match cursor_in(body) {
                    None => {
                        self.state = PagState::DoneNoMoreData;
                        proof {
                            assert(self@ =~= step_page(old(self)@, *body));
                        }
                    },
                    Some(tok) => {
                        let t = tok.clone();
                        self.collection.cursor = Some(t);
                        if self.pages_used >= self.collection.max_pages {
                            self.state = PagState::DoneLimitReached;
                            proof {
                                assert(self@ =~= step_page(old(self)@, *body));
                            }
                        } else {
                            self.pages_used = self.pages_used + 1;
                            self.state = PagState::Continuing;
                            proof {
                                assert(self@ =~= step_page(old(self)@, *body));
                            }
                        }
                    },
                }
            },
        }
    }
}

/// Pagination always halts: a step that continues the loop uses exactly one
/// more continuation page, and the counter never exceeds the ceiling, so at
/// most `limit` continuations follow the first page.
pub proof fn lemma_pagination_progress(m: PagModel, body: DocValue)
    requires
        m.wf(),
    ensures
        step_page(m, body).state == PagState::Continuing ==> step_page(m, body).pages_used
            == m.pages_used + 1,
        step_page(m, body).pages_used <= m.limit,
{
}

/// Every page response keeps the pagination well formed: a pending
/// continuation always has a cursor in hand, and the counter stays within
/// the ceiling.
pub proof fn lemma_step_preserves_wf(m: PagModel, body: DocValue)
    requires
        m.wf(),
    ensures
        step_page(m, body).wf(),
{
}

/// A page with an items array but no continuation token ends the loop in
/// the no-more-data state, with that page's records appended and kept.
pub proof fn lemma_no_cursor_stops(m: PagModel, body: DocValue)
    requires
        mints_of(body) is Some,
        cursor_of(body) is None,
    ensures
        step_page(m, body).state == PagState::DoneNoMoreData,
        step_page(m, body).records == m.records + norm_all(mints_of(body)->Some_0),
{
}

/// With a ceiling of zero no step ever continues the loop: only the first
/// request is issued, whatever cursor the response carries.
pub proof fn lemma_zero_limit_stops(m: PagModel, body: DocValue)
    requires
        m.limit == 0,
    ensures
        step_page(m, body).state != PagState::Continuing,
{
}

} // verus!
