//! A loosely structured document tree: what the remote endpoints return,
//! held as plain values, with get-or-default field access.

use vstd::prelude::*;
use crate::text::str_eq;

verus! {

/// One node of a raw response document: the remote APIs answer with nested
/// objects, arrays, strings, integers and booleans.
pub enum DocValue {
    Absent,
    Truth(bool),
    Num(i64),
    Text(String),
    List(Vec<DocValue>),
    Object(Vec<(String, DocValue)>),
}

/// The value under `key` in an object's field list: the first binding wins.
pub open spec fn lookup(fs: Seq<(String, DocValue)>, key: Seq<char>) -> Option<DocValue>
    decreases fs.len(),
{
    if fs.len() == 0 {
        None
    } else if fs[0].0@ == key {
        Some(fs[0].1)
    } else {
        lookup(fs.drop_first(), key)
    }
}

/// The value under `key` when `v` is an object that has it.
pub open spec fn field_of(v: DocValue, key: Seq<char>) -> Option<DocValue> {
    match v {
        DocValue::Object(fs) => lookup(fs@, key),
        _ => None,
    }
}

/// The value under `key`, with absence flattened away: reading a field of
/// anything that is not an object, or an object without it, gives `Absent`.
pub open spec fn inner(v: DocValue, key: Seq<char>) -> DocValue {
    match field_of(v, key) {
        Some(d) => d,
        None => DocValue::Absent,
    }
}

/// The string under `key`, defaulting to empty.
pub open spec fn str_at(v: DocValue, key: Seq<char>) -> Seq<char> {
    match field_of(v, key) {
        Some(DocValue::Text(s)) => s@,
        _ => Seq::empty(),
    }
}

/// The integer under `key`, defaulting to 0.
pub open spec fn num_at(v: DocValue, key: Seq<char>) -> i64 {
    match field_of(v, key) {
        Some(DocValue::Num(n)) => n,
        _ => 0,
    }
}

impl DocValue {
    /// Whether this node is an object.
    pub fn is_object(&self) -> (r: bool)
        ensures
            r == (*self is Object),
    {
        match self {
            DocValue::Object(_) => true,
            _ => false,
        }
    }

    /// Looks a field up in an object node.
    pub fn field<'a>(&'a self, key: &str) -> (r: Option<&'a DocValue>)
        ensures
            match r {
                Some(d) => field_of(*self, key@) == Some(*d),
                None => field_of(*self, key@) is None,
            },
    {
        match self {
            DocValue::Object(fs) => {
                let n: usize = fs.len();
                let mut i: usize = 0;
                proof {
                    assert(fs@.skip(0) =~= fs@);
                }
                while i < n
                    invariant
                        0 <= i <= n,
                        n == fs@.len(),
                        field_of(*self, key@) == lookup(fs@, key@),
                        lookup(fs@, key@) == lookup(fs@.skip(i as int), key@),
                    decreases n - i,
                {
                    proof {
                        assert(fs@.skip(i as int)[0] == fs@[i as int]);
                        assert(fs@.skip(i as int).drop_first() =~= fs@.skip(i + 1));
                    }
                    if str_eq(fs[i].0.as_str(), key) {
                        proof {
                            assert(lookup(fs@.skip(i as int), key@) == Some(fs@[i as int].1));
                        }
                        return Some(&fs[i].1);
                    }
                    i += 1;
                }
                proof {
                    assert(fs@.skip(n as int) =~= Seq::<(String, DocValue)>::empty());
                }
                None
            },
            _ => None,
        }
    }

    /// The string under `key`, or empty when the field is missing or not a
    /// string.
    pub fn text_at(&self, key: &str) -> (r: String)
        ensures
            r@ == str_at(*self, key@),
    {
        match self.field(key) {
            Some(DocValue::Text(s)) => s.clone(),
            _ => String::new(),
        }
    }

    /// The integer under `key`, or 0 when the field is missing or not a
    /// number.
    pub fn num_at(&self, key: &str) -> (r: i64)
        ensures
            r == num_at(*self, key@),
    {
        match self.field(key) {
            Some(DocValue::Num(n)) => *n,
            _ => 0,
        }
    }

    /// The string under the two-step path `k1.k2`, defaulting to empty.
    pub fn text_at2(&self, k1: &str, k2: &str) -> (r: String)
        ensures
            r@ == str_at(inner(*self, k1@), k2@),
    {
        match self.field(k1) {
            Some(d) => d.text_at(k2),
            None => String::new(),
        }
    }

    /// The integer under the two-step path `k1.k2`, defaulting to 0.
    pub fn num_at2(&self, k1: &str, k2: &str) -> (r: i64)
        ensures
            r == num_at(inner(*self, k1@), k2@),
    {
        match self.field(k1) {
            Some(d) => d.num_at(k2),
            None => 0,
        }
    }

    /// The string under the three-step path `k1.k2.k3`, defaulting to empty.
    pub fn text_at3(&self, k1: &str, k2: &str, k3: &str) -> (r: String)
        ensures
            r@ == str_at(inner(inner(*self, k1@), k2@), k3@),
    {
        match self.field(k1) {
            Some(d) => d.text_at2(k2, k3),
            None => String::new(),
        }
    }

    /// The integer under the three-step path `k1.k2.k3`, defaulting to 0.
    pub fn num_at3(&self, k1: &str, k2: &str, k3: &str) -> (r: i64)
        ensures
            r == num_at(inner(inner(*self, k1@), k2@), k3@),
    {
        match self.field(k1) {
            Some(d) => d.num_at2(k2, k3),
            None => 0,
        }
    }
}

} // verus!
