//! Reading fields of JSON documents (HTTP response bodies) with `serde_json`.

use vstd::prelude::*;

use crate::config::opt_view;

verus! {

/// The name of what `json_str` returns: the string at the JSON pointer
/// `pointer` of the document `text`, or `None` when `text` is not JSON, the
/// pointer leads nowhere, or the value there is not a string.
pub uninterp spec fn json_str_spec(text: Seq<char>, pointer: Seq<char>) -> Option<Seq<char>>;

/// The name of what `json_has` returns: `text` is JSON and the pointer leads
/// to a value.
pub uninterp spec fn json_has_spec(text: Seq<char>, pointer: Seq<char>) -> bool;

/// The name of what `json_array_len` returns: the length of the array at
/// the pointer, or `None` when `text` is not JSON or there is no array there.
pub uninterp spec fn json_array_len_spec(text: Seq<char>, pointer: Seq<char>) -> Option<usize>;

/// `serde_json::from_str::<Value>`, then `Value::pointer` and `Value::as_str`.
/// The result depends on the two arguments alone; it is named, not described.
#[verifier::external_body]
pub(crate) fn json_str(text: &str, pointer: &str) -> (r: Option<String>)
    ensures
        opt_view(r) == json_str_spec(text@, pointer@),
{
    let v: serde_json::Value = serde_json::from_str(text).ok()?;
    v.pointer(pointer)?.as_str().map(|s| s.to_string())
}

/// `serde_json::from_str::<Value>`, then whether `Value::pointer` finds a
/// value. The result depends on the two arguments alone; it is named.
#[verifier::external_body]
pub(crate) fn json_has(text: &str, pointer: &str) -> (r: bool)
    ensures
        r == json_has_spec(text@, pointer@),
{
    match serde_json::from_str::<serde_json::Value>(text) {
        Ok(v) => v.pointer(pointer).is_some(),
        Err(_) => false,
    }
}

/// `serde_json::from_str::<Value>`, then `Value::pointer`, `Value::as_array`
/// and the array's length. The result depends on the arguments alone; it is
/// named.
#[verifier::external_body]
pub(crate) fn json_array_len(text: &str, pointer: &str) -> (r: Option<usize>)
    ensures
        r == json_array_len_spec(text@, pointer@),
{
    let v: serde_json::Value = serde_json::from_str(text).ok()?;
    v.pointer(pointer)?.as_array().map(|a| a.len())
}

} // verus!
