//! Mathematical model of a parsed JSON document: the shape the extraction
//! logic reads. Numbers carry no payload because the extractor never reads
//! one.

use vstd::prelude::*;

verus! {

/// One JSON value, as the extraction logic sees it.
pub enum JsonTree {
    Null,
    Bool(bool),
    Num,
    Str(Seq<char>),
    Arr(Seq<JsonTree>),
    Obj(Map<Seq<char>, JsonTree>),
}

/// The member of object `t` under `k`, if `t` is an object that holds `k`.
pub open spec fn jt_key(t: JsonTree, k: Seq<char>) -> Option<JsonTree> {
    match t {
        JsonTree::Obj(m) => if m.contains_key(k) {
            Some(m[k])
        } else {
            None
        },
        _ => None,
    }
}

/// The element of array `t` at `i`, if `t` is an array and `i` is in range.
pub open spec fn jt_idx(t: JsonTree, i: int) -> Option<JsonTree> {
    match t {
        JsonTree::Arr(items) => if 0 <= i < items.len() {
            Some(items[i])
        } else {
            None
        },
        _ => None,
    }
}

/// Chain step: look up a key below an optional value.
pub open spec fn opt_key(o: Option<JsonTree>, k: Seq<char>) -> Option<JsonTree> {
    match o {
        Some(t) => jt_key(t, k),
        None => None,
    }
}

/// Chain step: index below an optional value.
pub open spec fn opt_idx(o: Option<JsonTree>, i: int) -> Option<JsonTree> {
    match o {
        Some(t) => jt_idx(t, i),
        None => None,
    }
}

/// The text of an optional value, or the empty string where it is absent or
/// not a string.
pub open spec fn str_or_empty(o: Option<JsonTree>) -> Seq<char> {
    match o {
        Some(JsonTree::Str(s)) => s,
        _ => Seq::empty(),
    }
}

} // verus!
