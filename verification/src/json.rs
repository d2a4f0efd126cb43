//! A plain-value model of a structured configuration document.
//!
//! The gateway's configuration arrives as a tree of nested fields; the
//! loader at the process edge decodes the raw text and hands the tree to the
//! library as a `JsonValue`, so that schema validation is done here.
//! Numeric payloads are not modelled: no recognized field is numeric, so the
//! validator only needs to know that a value is a number, never which one.

use vstd::prelude::*;

verus! {

/// One node of a structured document: the shapes a decoded value can take.
pub enum JsonValue {
    Null,
    Bool(bool),
    Number,
    Text(String),
    Array(Vec<JsonValue>),
    Object(Vec<(String, JsonValue)>),
}

/// The fields of an object value; the empty sequence for any other shape.
pub open spec fn obj_fields(v: JsonValue) -> Seq<(String, JsonValue)> {
    match v {
        JsonValue::Object(fs) => fs@,
        _ => Seq::empty(),
    }
}

/// Whether an object's fields contain the key `k`.
pub open spec fn obj_has_key(fields: Seq<(String, JsonValue)>, k: Seq<char>) -> bool {
    exists|i: int| 0 <= i < fields.len() && fields[i].0@ == k
}

/// Whether an object's field names are pairwise distinct.
pub open spec fn keys_unique(fields: Seq<(String, JsonValue)>) -> bool {
    forall|i: int, j: int|
        0 <= i < j < fields.len() ==> fields[i].0@ != fields[j].0@
}

/// The value stored under key `k`, if any.
pub open spec fn obj_get(fields: Seq<(String, JsonValue)>, k: Seq<char>) -> Option<JsonValue> {
    if obj_has_key(fields, k) {
        Some(fields[choose|i: int| 0 <= i < fields.len() && fields[i].0@ == k].1)
    } else {
        None
    }
}

/// When keys are unique, finding `k` at position `i` pins down `obj_get`.
pub proof fn lemma_obj_get_at(fields: Seq<(String, JsonValue)>, k: Seq<char>, i: int)
    requires
        keys_unique(fields),
        0 <= i < fields.len(),
        fields[i].0@ == k,
    ensures
        obj_get(fields, k) == Some(fields[i].1),
{
    assert(obj_has_key(fields, k));
    let j = choose|j: int| 0 <= j < fields.len() && fields[j].0@ == k;
    if i < j {
        assert(fields[i].0@ != fields[j].0@);
    } else if j < i {
        assert(fields[j].0@ != fields[i].0@);
    }
}

/// Decides whether an object's field names are pairwise distinct; if not,
/// points at a field whose name an earlier field already used.
pub fn find_duplicate_key(fields: &Vec<(String, JsonValue)>) -> (r: Option<usize>)
    ensures
        match r {
            Some(j) => j < fields@.len() && exists|p: int|
                0 <= p < j && (#[trigger] fields@[p]).0@ == fields@[j as int].0@,
            None => keys_unique(fields@),
        },
{
    let n = fields.len();
    let mut i: usize = 0;
    while i < n
        invariant
            n == fields@.len(),
            0 <= i <= n,
            forall|p: int, q: int| 0 <= p < q < n && p < i ==> fields@[p].0@ != fields@[q].0@,
        decreases n - i,
    {
        let mut j: usize = i + 1;
        while j < n
            invariant
                n == fields@.len(),
                0 <= i < j <= n,
                forall|q: int| i < q < j ==> fields@[i as int].0@ != fields@[q].0@,
            decreases n - j,
        {
            if crate::strutil::str_eq(fields[i].0.as_str(), fields[j].0.as_str()) {
                assert(fields@[i as int].0@ == fields@[j as int].0@);
                return Some(j);
            }
            j = j + 1;
        }
        i = i + 1;
    }
    None
}

} // verus!
