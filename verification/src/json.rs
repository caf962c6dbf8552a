//! Reading tool arguments: the model sends them as JSON text.

use vstd::prelude::*;
use crate::types::opt_view;

verus! {

/// Whether `serde_json` reads `text` as a JSON document.
pub uninterp spec fn json_accepts(text: Seq<char>) -> bool;

/// The string held by member `key` of the JSON object in `text`, as
/// `serde_json` reads it; `None` when `text` is no JSON object, has no such
/// member, or the member holds no string.
pub uninterp spec fn json_string_member(text: Seq<char>, key: Seq<char>) -> Option<Seq<char>>;

/// The unsigned integer held by member `key` of the JSON object in `text`, as
/// `serde_json` reads it; `None` when `text` is no JSON object, has no such
/// member, or the member holds no integer in the range of `u64`.
pub uninterp spec fn json_u64_member(text: Seq<char>, key: Seq<char>) -> Option<u64>;

/// Calls `serde_json::from_str::<Value>`; claims only that the answer is
/// whether `text` parses, as `json_accepts` names it.
#[verifier::external_body]
pub(crate) fn parses_as_json(text: &str) -> (ok: bool)
    ensures
        ok == json_accepts(text@),
{
    serde_json::from_str::<serde_json::Value>(text).is_ok()
}

/// Calls `serde_json::from_str::<Value>`, then `Value::get` and
/// `Value::as_str`; claims that the result is the one `json_string_member`
/// names for these arguments.
#[verifier::external_body]
pub(crate) fn string_member(text: &str, key: &str) -> (r: Option<String>)
    ensures
        opt_view(r) == json_string_member(text@, key@),
{
    match serde_json::from_str::<serde_json::Value>(text) {
        Ok(v) => v.get(key).and_then(serde_json::Value::as_str).map(String::from),
        Err(_) => None,
    }
}

/// Calls `serde_json::from_str::<Value>`, then `Value::get` and
/// `Value::as_u64`; claims that the result is the one `json_u64_member`
/// names for these arguments.
#[verifier::external_body]
pub(crate) fn u64_member(text: &str, key: &str) -> (r: Option<u64>)
    ensures
        r == json_u64_member(text@, key@),
{
    match serde_json::from_str::<serde_json::Value>(text) {
        Ok(v) => v.get(key).and_then(serde_json::Value::as_u64),
        Err(_) => None,
    }
}

} // verus!
