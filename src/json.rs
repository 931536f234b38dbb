//! The JSON calls that templates rely on. Each is named by what it yields
//! for a given text, so that callers can state exactly what they read.
use vstd::prelude::*;
use crate::configs::opt_view;

verus! {

/// Whether `serde_json` reads the text `s` as one JSON value.
pub uninterp spec fn is_json(s: Seq<char>) -> bool;

/// The string member `key` of the JSON object that `serde_json` reads from
/// `s`; `None` when `s` is not JSON, not an object, or has no such string
/// member.
pub uninterp spec fn json_string_member(s: Seq<char>, key: Seq<char>) -> Option<Seq<char>>;

/// The compact JSON text that `serde_json` writes for the member `key` of
/// the JSON object it reads from `s`; `None` when `s` is not JSON, not an
/// object, or has no such member.
pub uninterp spec fn json_member_text(s: Seq<char>, key: Seq<char>) -> Option<Seq<char>>;

/// Relies on `serde_json::from_str::<Value>`: it succeeds exactly on the
/// texts that hold one JSON value; a failure carries the parse diagnostic.
#[verifier::external_body]
pub(crate) fn parse_check(s: &str) -> (r: Result<(), String>)
    ensures
        r is Ok <==> is_json(s@),
{
    serde_json::from_str::<serde_json::Value>(s).map(|_| ()).map_err(|e| e.to_string())
}

/// Relies on `serde_json::from_str::<Value>`, `Value::get` and
/// `Value::as_str`: the string member `key` of the object read from `s`.
#[verifier::external_body]
pub(crate) fn string_member(s: &str, key: &str) -> (r: Option<String>)
    ensures
        opt_view(r) == json_string_member(s@, key@),
{
    serde_json::from_str::<serde_json::Value>(s)
        .ok()
        .and_then(|v| v.get(key).and_then(|m| m.as_str()).map(String::from))
}

/// Relies on `serde_json::from_str::<Value>`, `Value::get` and `Value`'s
/// compact `Display` (the text `serde_json::to_string` writes): the member
/// `key` of the object read from `s`, written back as JSON text.
#[verifier::external_body]
pub(crate) fn member_text(s: &str, key: &str) -> (r: Option<String>)
    ensures
        opt_view(r) == json_member_text(s@, key@),
{
    serde_json::from_str::<serde_json::Value>(s)
        .ok()
        .and_then(|v| v.get(key).map(|m| m.to_string()))
}

} // verus!
