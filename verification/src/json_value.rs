//! Trusted boundary around `serde_json`: the declared `Value` type, a name
//! for what parsing returns, and thin wrappers over the few `Value` methods
//! the extractor calls. Each wrapper's contract states what the method's
//! source shows, over the [`JsonTree`] model of the value's contents.

use vstd::prelude::*;
use crate::json_model::JsonTree;

verus! {

#[verifier::external_type_specification]
#[verifier::external_body]
pub struct ExValue(serde_json::Value);

/// The [`JsonTree`] a `serde_json::Value` holds.
pub uninterp spec fn jmodel(v: serde_json::Value) -> JsonTree;

/// What `serde_json::from_str::<Value>` returns on a given text: the parse is
/// a function of the text alone, `None` standing for a parse error.
pub uninterp spec fn json_parse(s: Seq<char>) -> Option<JsonTree>;

/// Relies on `serde_json::from_str::<Value>`: parses the whole text as one
/// JSON document, deterministically.
#[verifier::external_body]
pub(crate) fn parse_json(s: &str) -> (r: Option<serde_json::Value>)
    ensures
        match r {
            Some(v) => json_parse(s@) == Some(jmodel(v)),
            None => json_parse(s@) is None,
        },
{
    serde_json::from_str::<serde_json::Value>(s).ok()
}

/// Relies on `serde_json::Value::get` with a string index: `Some` exactly on
/// an object that holds the key, returning that member.
#[verifier::external_body]
pub(crate) fn j_key<'a>(v: &'a serde_json::Value, key: &str) -> (r: Option<
    &'a serde_json::Value,
>)
    ensures
        match r {
            Some(sub) => {
                &&& jmodel(*v) matches JsonTree::Obj(m)
                &&& m.contains_key(key@)
                &&& jmodel(*sub) == m[key@]
            },
            None => !(jmodel(*v) matches JsonTree::Obj(m) && m.contains_key(key@)),
        },
{
    v.get(key)
}

/// Relies on `serde_json::Value::get` with a `usize` index: `Some` exactly on
/// an array with the index in range, returning that element.
#[verifier::external_body]
pub(crate) fn j_idx<'a>(v: &'a serde_json::Value, i: usize) -> (r: Option<
    &'a serde_json::Value,
>)
    ensures
        match r {
            Some(sub) => {
                &&& jmodel(*v) matches JsonTree::Arr(items)
                &&& i < items.len()
                &&& jmodel(*sub) == items[i as int]
            },
            None => !(jmodel(*v) matches JsonTree::Arr(items) && i < items.len()),
        },
{
    v.get(i)
}

/// Relies on `serde_json::Value::as_array`: `Some` exactly on an array,
/// whose length it reports.
#[verifier::external_body]
pub(crate) fn j_arr_len(v: &serde_json::Value) -> (r: Option<usize>)
    ensures
        match r {
            Some(n) => jmodel(*v) matches JsonTree::Arr(items) && items.len() == n,
            None => !(jmodel(*v) is Arr),
        },
{
    v.as_array().map(|a| a.len())
}

/// Relies on `serde_json::Value::as_str`: `Some` exactly on a string,
/// returning its text.
#[verifier::external_body]
pub(crate) fn j_str<'a>(v: &'a serde_json::Value) -> (r: Option<&'a str>)
    ensures
        match r {
            Some(s) => jmodel(*v) matches JsonTree::Str(t) && s@ == t,
            None => !(jmodel(*v) is Str),
        },
{
    v.as_str()
}

} // verus!
