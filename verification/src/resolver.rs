//! The resolver: given the parsed catalog search response and the wanted
//! collection names, extracts one descriptor per hit whose display name
//! matches a wanted name, case-insensitively, in response order. Hits with
//! a missing name or identifier are skipped silently; only a response
//! without the expected top-level container is an error.

use vstd::prelude::*;
use crate::docs::{field_of, inner, DocValue};
use crate::query::TaskType;
use crate::text::{lower_of, lowercase, str_eq};

verus! {

/// The top-level response was not the expected container shape.
#[derive(Debug)]
pub struct ResponseShapeError;

/// One matched collection: its display name, its opaque identifier, the
/// pagination cursor (unset until the remote system issues one), and the
/// continuation-page ceiling.
pub struct Collection {
    pub name: String,
    pub collection_slug: String,
    pub cursor: Option<String>,
    pub max_pages: u32,
}

/// The mathematical content of a descriptor.
pub ghost struct CollModel {
    pub name: Seq<char>,
    pub collection_slug: Seq<char>,
    pub cursor: Option<Seq<char>>,
    pub max_pages: u32,
}

impl View for Collection {
    type V = CollModel;

    open spec fn view(&self) -> CollModel {
        CollModel {
            name: self.name@,
            collection_slug: self.collection_slug@,
            cursor: match self.cursor {
                Some(c) => Some(c@),
                None => None,
            },
            max_pages: self.max_pages,
        }
    }
}

impl Collection {
    /// A human-readable line naming the collection and its identifier.
    pub fn display_string(&self) -> (r: String)
        ensures
            r@ == "Name: "@ + self.name@ + ", ID: "@ + self.collection_slug@,
    {
        let mut out = String::from_str("Name: ");
        out.append(self.name.as_str());
        out.append(", ID: ");
        out.append(self.collection_slug.as_str());
        proof {
            assert(out@ =~= "Name: "@ + self.name@ + ", ID: "@ + self.collection_slug@);
        }
        out
    }
}

/// The descriptor models behind a vector of descriptors.
pub open spec fn coll_models(cs: Seq<Collection>) -> Seq<CollModel> {
    cs.map_values(|c: Collection| c@)
}

/// The response's result groups, when the container shape is as expected.
pub open spec fn results_of(body: DocValue) -> Option<Seq<DocValue>> {
    match field_of(body, "results"@) {
        Some(DocValue::List(v)) => Some(v@),
        _ => None,
    }
}

/// One result group's hits; a group without a hits array contributes none.
pub open spec fn group_hits(group: DocValue) -> Seq<DocValue> {
    match field_of(group, "hits"@) {
        Some(DocValue::List(v)) => v@,
        _ => Seq::empty(),
    }
}

/// Whether a display name matches some wanted name, case-insensitively.
pub open spec fn wanted_match(name: Seq<char>, wanted: Seq<Seq<char>>) -> bool {
    exists|i: int| 0 <= i < wanted.len() && lower_of(name) == lower_of(#[trigger] wanted[i])
}

/// What one hit contributes: a single descriptor when its document carries
/// a matching name and an identifier, nothing otherwise.
pub open spec fn hit_descriptor(hit: DocValue, wanted: Seq<Seq<char>>, limit: u32) -> Seq<
    CollModel,
> {
    let doc = inner(hit, "document"@);
    match field_of(doc, "name"@) {
        Some(DocValue::Text(n)) => if wanted_match(n@, wanted) {
            match field_of(doc, "id"@) {
                Some(DocValue::Text(id)) => seq![
                    CollModel {
                        name: n@,
                        collection_slug: id@,
                        cursor: None,
                        max_pages: limit,
                    },
                ],
                _ => Seq::empty(),
            }
        } else {
            Seq::empty()
        },
        _ => Seq::empty(),
    }
}

/// The descriptors a sequence of hits contributes, in hit order.
pub open spec fn resolve_hits(hits: Seq<DocValue>, wanted: Seq<Seq<char>>, limit: u32) -> Seq<
    CollModel,
>
    decreases hits.len(),
{
    if hits.len() == 0 {
        Seq::empty()
    } else {
        resolve_hits(hits.drop_last(), wanted, limit) + hit_descriptor(hits.last(), wanted, limit)
    }
}

/// The descriptors all result groups contribute, groups in response order.
pub open spec fn resolve_groups(groups: Seq<DocValue>, wanted: Seq<Seq<char>>, limit: u32) -> Seq<
    CollModel,
>
    decreases groups.len(),
{
    if groups.len() == 0 {
        Seq::empty()
    } else {
        resolve_groups(groups.drop_last(), wanted, limit) + resolve_hits(
            group_hits(groups.last()),
            wanted,
            limit,
        )
    }
}

/// Whether `name` matches any of the wanted names, case-insensitively.
fn name_matches(name: &str, wanted: &Vec<String>) -> (r: bool)
    ensures
        r == wanted_match(name@, wanted.deep_view()),
{
    let ln = lowercase(name);
    let n: usize = wanted.len();
    let mut i: usize = 0;
    while i < n
        invariant
            0 <= i <= n,
            n == wanted@.len(),
            ln@ == lower_of(name@),
            forall|k: int| 0 <= k < i ==> lower_of(name@) != lower_of(#[trigger] wanted@[k]@),
        decreases n - i,
    {
        let lw = lowercase(wanted[i].as_str());
        if str_eq(ln.as_str(), lw.as_str()) {
            proof {
                assert(wanted.deep_view()[i as int] == wanted@[i as int]@);
            }
            return true;
        }
        i += 1;
    }
    proof {
        assert(forall|k: int|
            0 <= k < n ==> #[trigger] wanted.deep_view()[k] == wanted@[k]@);
    }
    false
}

/// Appends whatever one hit contributes.
fn process_hit(out: &mut Vec<Collection>, hit: &DocValue, collection_names: &Vec<String>, limit: u32)
    ensures
        coll_models(final(out)@) == coll_models(old(out)@) + hit_descriptor(
            *hit,
            collection_names.deep_view(),
            limit,
        ),
{
    let ghost wanted: Seq<Seq<char>> = collection_names.deep_view();
    match hit.field("document") {
        Some(doc) => {
            proof {
                assert(inner(*hit, "document"@) == *doc);
            }
            match doc.field("name") {
                Some(DocValue::Text(nm)) => {
                    if name_matches(nm.as_str(), collection_names) {
                        match doc.field("id") {
                            Some(DocValue::Text(id)) => {
                                let c = Collection {
                                    name: nm.clone(),
                                    collection_slug: id.clone(),
                                    cursor: None,
                                    max_pages: limit,
                                };
                                proof {
                                    assert(hit_descriptor(*hit, wanted, limit) =~= seq![c@]);
                                }
                                out.push(c);
                                proof {
                                    assert(coll_models(out@) =~= coll_models(old(out)@)
                                        + hit_descriptor(*hit, wanted, limit));
                                }
                            },
                            _ => {
                                proof {
                                    assert(hit_descriptor(*hit, wanted, limit)
                                        =~= Seq::<CollModel>::empty());
                                    assert(coll_models(out@) =~= coll_models(old(out)@)
                                        + hit_descriptor(*hit, wanted, limit));
                                }
                            },
                        }
                    } else {
                        proof {
                            assert(hit_descriptor(*hit, wanted, limit)
                                =~= Seq::<CollModel>::empty());
                            assert(coll_models(out@) =~= coll_models(old(out)@) + hit_descriptor(
                                *hit,
                                wanted,
                                limit,
                            ));
                        }
                    }
                },
                _ => {
                    proof {
                        assert(hit_descriptor(*hit, wanted, limit) =~= Seq::<CollModel>::empty());
                        assert(coll_models(out@) =~= coll_models(old(out)@) + hit_descriptor(
                            *hit,
                            wanted,
                            limit,
                        ));
                    }
                },
            }
        },
        None => {
            proof {
                assert(hit_descriptor(*hit, wanted, limit) =~= Seq::<CollModel>::empty());
                assert(coll_models(out@) =~= coll_models(old(out)@) + hit_descriptor(
                    *hit,
                    wanted,
                    limit,
                ));
            }
        },
    }
}

/// Reads the catalog search response. For a price-collection task, returns
/// the matched descriptors in response order, duplicates preserved; for a
/// catalog sweep, no descriptors arise. Fails exactly when the response
/// lacks the expected top-level container.
pub fn process_main_page_search_results(body: &DocValue, task_type: &TaskType) -> (r: Result<
    Vec<Collection>,
    ResponseShapeError,
>)
    ensures
        r is Err <==> results_of(*body) is None,
        r matches Ok(v) ==> match *task_type {
            TaskType::MainPage => v@.len() == 0,
            TaskType::SelectedCollectionsPrices { collection_names, max_pages } => coll_models(v@)
                == resolve_groups(
                results_of(*body)->Some_0,
                collection_names.deep_view(),
                max_pages,
            ),
        },
{
    let results: &Vec<DocValue> = match body.field("results") {
        Some(DocValue::List(v)) => v,
        _ => {
            return Err(ResponseShapeError);
        },
    };
    match task_type {
        TaskType::MainPage => Ok(Vec::new()),
        TaskType::SelectedCollectionsPrices { collection_names, max_pages } => {
            let ghost wanted: Seq<Seq<char>> = collection_names.deep_view();
            let ghost limit: u32 = *max_pages;
            let mut out: Vec<Collection> = Vec::new();
            let ng: usize = results.len();
            let mut i: usize = 0;
            while i < ng
                invariant
                    0 <= i <= ng,
                    ng == results@.len(),
                    wanted == collection_names.deep_view(),
                    limit == *max_pages,
                    coll_models(out@) == resolve_groups(results@.take(i as int), wanted, limit),
                decreases ng - i,
            {
                match results[i].field("hits") {
                    Some(DocValue::List(hits)) => {
                        let ghost group: DocValue = results@[i as int];
                        proof {
                            assert(group_hits(group) == hits@);
                        }
                        let nh: usize = hits.len();
                        let mut j: usize = 0;
                        while j < nh
                            invariant
                                0 <= j <= nh,
                                nh == hits@.len(),
                                wanted == collection_names.deep_view(),
                                limit == *max_pages,
                                coll_models(out@) == resolve_groups(
                                    results@.take(i as int),
                                    wanted,
                                    limit,
                                ) + resolve_hits(hits@.take(j as int), wanted, limit),
                            decreases nh - j,
                        {
                            process_hit(&mut out, &hits[j], collection_names, *max_pages);
                            proof {
                                let t = hits@.take(j + 1);
                                assert(t.drop_last() =~= hits@.take(j as int));
                                assert(t.last() == hits@[j as int]);
                                assert(coll_models(out@) =~= resolve_groups(
                                    results@.take(i as int),
                                    wanted,
                                    limit,
                                ) + resolve_hits(hits@.take(j + 1), wanted, limit));
                            }
                            j += 1;
                        }
                        proof {
                            assert(hits@.take(nh as int) =~= hits@);
                            let t = results@.take(i + 1);
                            assert(t.drop_last() =~= results@.take(i as int));
                            assert(t.last() == results@[i as int]);
                            assert(coll_models(out@) =~= resolve_groups(
                                results@.take(i + 1),
                                wanted,
                                limit,
                            ));
                        }
                    },
                    _ => {
                        proof {
                            let t = results@.take(i + 1);
                            assert(t.drop_last() =~= results@.take(i as int));
                            assert(t.last() == results@[i as int]);
                            assert(group_hits(results@[i as int]) =~= Seq::<DocValue>::empty());
                            assert(coll_models(out@) =~= resolve_groups(
                                results@.take(i + 1),
                                wanted,
                                limit,
                            ));
                        }
                    },
                }
                i += 1;
            }
            proof {
                assert(results@.take(ng as int) =~= results@);
            }
            Ok(out)
        },
    }
}

} // verus!
