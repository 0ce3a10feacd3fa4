//! The catalog sweep: for a full-catalog task the search response's hit
//! documents are collected as `Document` values — the display name, the
//! update stamp, and every statistics field, kept loosely structured.

use vstd::prelude::*;
use crate::docs::{field_of, DocValue};
use crate::resolver::{group_hits, results_of, ResponseShapeError};

verus! {

broadcast use vstd::std_specs::vec::group_vec_axioms;

/// One catalog document: its display name and update stamp when present and
/// well-typed, and its statistics fields as found.
pub struct Document {
    pub name: Option<String>,
    pub updated_at: Option<u64>,
    pub extra: Vec<(String, DocValue)>,
}

/// The mathematical content of a catalog document.
pub ghost struct DocModel {
    pub name: Option<Seq<char>>,
    pub updated_at: Option<u64>,
    pub extra: Seq<(Seq<char>, DocValue)>,
}

impl View for Document {
    type V = DocModel;

    open spec fn view(&self) -> DocModel {
        DocModel {
            name: match self.name {
                Some(s) => Some(s@),
                None => None,
            },
            updated_at: self.updated_at,
            extra: pair_models(self.extra@),
        }
    }
}

/// Whether two document values hold the same content. Copies of a value
/// are compared structurally: a rebuilt array or object equals the
/// original when it has the same elements in the same order.
pub open spec fn same_doc(a: DocValue, b: DocValue) -> bool
    decreases a,
{
    match (a, b) {
        (DocValue::Absent, DocValue::Absent) => true,
        (DocValue::Truth(x), DocValue::Truth(y)) => x == y,
        (DocValue::Num(x), DocValue::Num(y)) => x == y,
        (DocValue::Text(x), DocValue::Text(y)) => x@ == y@,
        (DocValue::List(x), DocValue::List(y)) => x@.len() == y@.len() && (forall|i: int|
            0 <= i < x@.len() ==> same_doc(#[trigger] x@[i], y@[i])),
        (DocValue::Object(x), DocValue::Object(y)) => x@.len() == y@.len() && (forall|i: int|
            0 <= i < x@.len() ==> (#[trigger] x@[i]).0@ == y@[i].0@ && same_doc(
                x@[i].1,
                y@[i].1,
            )),
        _ => false,
    }
}

/// Whether two key/value lists hold the same keys and matching values.
pub open spec fn pairs_match(a: Seq<(Seq<char>, DocValue)>, b: Seq<(Seq<char>, DocValue)>) -> bool {
    a.len() == b.len() && (forall|i: int|
        0 <= i < a.len() ==> (#[trigger] a[i]).0 == b[i].0 && same_doc(a[i].1, b[i].1))
}

/// Whether two documents hold the same content.
pub open spec fn doc_matches(a: DocModel, b: DocModel) -> bool {
    a.name == b.name && a.updated_at == b.updated_at && pairs_match(a.extra, b.extra)
}

/// Whether two document sequences match pointwise.
pub open spec fn docs_match(a: Seq<DocModel>, b: Seq<DocModel>) -> bool {
    a.len() == b.len() && (forall|i: int| 0 <= i < a.len() ==> doc_matches(#[trigger] a[i], b[i]))
}

/// The pair models behind an object's field list.
pub open spec fn pair_models(ps: Seq<(String, DocValue)>) -> Seq<(Seq<char>, DocValue)> {
    ps.map_values(|p: (String, DocValue)| (p.0@, p.1))
}

/// The document models behind a vector of documents.
pub open spec fn doc_models(ds: Seq<Document>) -> Seq<DocModel> {
    ds.map_values(|d: Document| d@)
}

/// Whether a field key names a statistics group.
pub open spec fn starts_stats(k: Seq<char>) -> bool {
    k.len() >= 5 && k[0] == 's' && k[1] == 't' && k[2] == 'a' && k[3] == 't' && k[4] == 's'
}

/// The statistics fields of an object's field list, in order.
pub open spec fn stats_fields(fs: Seq<(String, DocValue)>) -> Seq<(Seq<char>, DocValue)>
    decreases fs.len(),
{
    if fs.len() == 0 {
        Seq::empty()
    } else {
        stats_fields(fs.drop_last()) + (if starts_stats(fs.last().0@) {
            seq![(fs.last().0@, fs.last().1)]
        } else {
            Seq::empty()
        })
    }
}

/// What one hit document yields: name and update stamp where present and of
/// the right type, and its statistics fields.
pub open spec fn document_of(d: DocValue) -> DocModel {
    DocModel {
        name: match field_of(d, "name"@) {
            Some(DocValue::Text(s)) => Some(s@),
            _ => None,
        },
        updated_at: match field_of(d, "updatedAt"@) {
            Some(DocValue::Num(n)) => if n >= 0 {
                Some(n as u64)
            } else {
                None
            },
            _ => None,
        },
        extra: match d {
            DocValue::Object(fs) => stats_fields(fs@),
            _ => Seq::empty(),
        },
    }
}

/// What one hit contributes: its document, when it carries an object there.
pub open spec fn hit_document(hit: DocValue) -> Seq<DocModel> {
    match field_of(hit, "document"@) {
        Some(d) => if d is Object {
            seq![document_of(d)]
        } else {
            Seq::empty()
        },
        None => Seq::empty(),
    }
}

/// The documents a sequence of hits contributes, in hit order.
pub open spec fn docs_of_hits(hits: Seq<DocValue>) -> Seq<DocModel>
    decreases hits.len(),
{
    if hits.len() == 0 {
        Seq::empty()
    } else {
        docs_of_hits(hits.drop_last()) + hit_document(hits.last())
    }
}

/// The documents all result groups contribute, in response order.
pub open spec fn docs_of_groups(groups: Seq<DocValue>) -> Seq<DocModel>
    decreases groups.len(),
{
    if groups.len() == 0 {
        Seq::empty()
    } else {
        docs_of_groups(groups.drop_last()) + docs_of_hits(group_hits(groups.last()))
    }
}

/// A deep copy of a document value, content for content.
pub fn clone_doc(d: &DocValue) -> (r: DocValue)
    ensures
        same_doc(r, *d),
    decreases *d,
{
    match d {
        DocValue::Absent => DocValue::Absent,
        DocValue::Truth(b) => DocValue::Truth(*b),
        DocValue::Num(n) => DocValue::Num(*n),
        DocValue::Text(s) => DocValue::Text(s.clone()),
        DocValue::List(v) => {
            let n: usize = v.len();
            let mut out: Vec<DocValue> = Vec::new();
            let mut i: usize = 0;
            while i < n
                invariant
                    0 <= i <= n,
                    n == v@.len(),
                    decreases_to!(*d => *v),
                    out@.len() == i,
                    forall|k: int| 0 <= k < i ==> same_doc(#[trigger] out@[k], v@[k]),
                decreases n - i,
            {
                let c = clone_doc(&v[i]);
                out.push(c);
                i += 1;
            }
            DocValue::List(out)
        },
        DocValue::Object(fs) => {
            let n: usize = fs.len();
            let mut out: Vec<(String, DocValue)> = Vec::new();
            let mut i: usize = 0;
            while i < n
                invariant
                    0 <= i <= n,
                    n == fs@.len(),
                    decreases_to!(*d => *fs),
                    out@.len() == i,
                    forall|k: int|
                        0 <= k < i ==> (#[trigger] out@[k]).0@ == fs@[k].0@ && same_doc(
                            out@[k].1,
                            fs@[k].1,
                        ),
                decreases n - i,
            {
                let k = fs[i].0.clone();
                let c = clone_doc(&fs[i].1);
                out.push((k, c));
                i += 1;
            }
            DocValue::Object(out)
        },
    }
}

/// Whether a field key names a statistics group.
fn starts_stats_exec(k: &str) -> (r: bool)
    ensures
        r == starts_stats(k@),
{
    if k.unicode_len() < 5 {
        return false;
    }
    k.get_char(0) == 's' && k.get_char(1) == 't' && k.get_char(2) == 'a' && k.get_char(3) == 't'
        && k.get_char(4) == 's'
}

/// Reads one hit document.
fn read_document(d: &DocValue) -> (r: Document)
    requires
        d is Object,
    ensures
        doc_matches(r@, document_of(*d)),
{
    let name: Option<String> = match d.field("name") {
        Some(DocValue::Text(s)) => Some(s.clone()),
        _ => None,
    };
    let updated_at: Option<u64> = match d.field("updatedAt") {
        Some(DocValue::Num(n)) => if *n >= 0 {
            Some(*n as u64)
        } else {
            None
        },
        _ => None,
    };
    let mut extra: Vec<(String, DocValue)> = Vec::new();
    match d {
        DocValue::Object(fs) => {
            let n: usize = fs.len();
            let mut i: usize = 0;
            while i < n
                invariant
                    0 <= i <= n,
                    n == fs@.len(),
                    pairs_match(pair_models(extra@), stats_fields(fs@.take(i as int))),
                decreases n - i,
            {
                let ghost prev = extra@;
                if starts_stats_exec(fs[i].0.as_str()) {
                    let k = fs[i].0.clone();
                    let c = clone_doc(&fs[i].1);
                    extra.push((k, c));
                    proof {
                        assert(pair_models(extra@) =~= pair_models(prev).push((k@, c)));
                    }
                }
                proof {
                    let t = fs@.take(i + 1);
                    assert(t.drop_last() =~= fs@.take(i as int));
                    assert(t.last() == fs@[i as int]);
                }
                i += 1;
            }
            proof {
                assert(fs@.take(n as int) =~= fs@);
            }
        },
        _ => {
            proof {
                assert(false);
            }
        },
    }
    Document { name, updated_at, extra }
}

/// Collects the hit documents of a catalog search response, in response
/// order, each matching the hit's document content for content. Fails
/// exactly when the response lacks the expected top-level container.
pub fn extract_documents(body: &DocValue) -> (r: Result<Vec<Document>, ResponseShapeError>)
    ensures
        r is Err <==> results_of(*body) is None,
        r matches Ok(v) ==> docs_match(doc_models(v@), docs_of_groups(results_of(*body)->Some_0)),
{
    let results: &Vec<DocValue> = match body.field("results") {
        Some(DocValue::List(v)) => v,
        _ => {
            return Err(ResponseShapeError);
        },
    };
    let mut out: Vec<Document> = Vec::new();
    let ng: usize = results.len();
    let mut i: usize = 0;
    while i < ng
        invariant
            0 <= i <= ng,
            ng == results@.len(),
            docs_match(doc_models(out@), docs_of_groups(results@.take(i as int))),
        decreases ng - i,
    {
        match results[i].field("hits") {
            Some(DocValue::List(hits)) => {
                let nh: usize = hits.len();
                let mut j: usize = 0;
                proof {
                    assert(group_hits(results@[i as int]) == hits@);
                }
                while j < nh
                    invariant
                        0 <= j <= nh,
                        nh == hits@.len(),
                        docs_match(
                            doc_models(out@),
                            docs_of_groups(results@.take(i as int)) + docs_of_hits(
                                hits@.take(j as int),
                            ),
                        ),
                    decreases nh - j,
                {
                    let ghost prev = out@;
                    match hits[j].field("document") {
                        Some(doc) => {
                            if doc.is_object() {
                                let read = read_document(doc);
                                out.push(read);
                                proof {
                                    assert(doc_models(out@) =~= doc_models(prev).push(read@));
                                }
                            }
                        },
                        None => {},
                    }
                    proof {
                        let t = hits@.take(j + 1);
                        assert(t.drop_last() =~= hits@.take(j as int));
                        assert(t.last() == hits@[j as int]);
                    }
                    j += 1;
                }
                proof {
                    assert(hits@.take(nh as int) =~= hits@);
                    let t = results@.take(i + 1);
                    assert(t.drop_last() =~= results@.take(i as int));
                    assert(t.last() == results@[i as int]);
                }
            },
            _ => {
                proof {
                    let t = results@.take(i + 1);
                    assert(t.drop_last() =~= results@.take(i as int));
                    assert(t.last() == results@[i as int]);
                    assert(group_hits(results@[i as int]) =~= Seq::<DocValue>::empty());
                }
            },
        }
        i += 1;
    }
    proof {
        assert(results@.take(ng as int) =~= results@);
    }
    Ok(out)
}

} // verus!
