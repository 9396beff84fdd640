//! Trusted access to string fields of JSON bodies.
//!
//! The token exchanges read one string out of a JSON response.  The parse
//! is outside code; what it yields on a given body and key is named here,
//! and the flows' contracts speak of those names.

use vstd::prelude::*;

verus! {

/// What parsing `body` as JSON and reading the string under the top-level
/// `key` yields: the string's characters, or nothing when `body` does not
/// parse, the key is absent, or its value is not a string.
pub uninterp spec fn json_str_field_of(body: Seq<char>, key: Seq<char>) -> Option<Seq<char>>;

/// What parsing `body` as JSON and reading the string under `key` inside
/// the top-level object `outer` yields.
pub uninterp spec fn json_nested_str_field_of(
    body: Seq<char>,
    outer: Seq<char>,
    key: Seq<char>,
) -> Option<Seq<char>>;

/// Relies on `serde_json::from_str` and `Value`'s `get` and `as_str`: the
/// parse is a function of the body's characters alone.
#[verifier::external_body]
pub fn json_str_field(body: &str, key: &str) -> (r: Option<String>)
    ensures
        r is Some <==> json_str_field_of(body@, key@) is Some,
        r matches Some(v) ==> Some(v@) == json_str_field_of(body@, key@),
{
    let value: serde_json::Value = serde_json::from_str(body).ok()?;
    Some(value.get(key)?.as_str()?.to_string())
}

/// Relies on `serde_json::from_str` and `Value`'s `get` and `as_str`: the
/// parse is a function of the body's characters alone.
#[verifier::external_body]
pub fn json_nested_str_field(body: &str, outer: &str, key: &str) -> (r: Option<String>)
    ensures
        r is Some <==> json_nested_str_field_of(body@, outer@, key@) is Some,
        r matches Some(v) ==> Some(v@) == json_nested_str_field_of(body@, outer@, key@),
{
    let value: serde_json::Value = serde_json::from_str(body).ok()?;
    Some(value.get(outer)?.get(key)?.as_str()?.to_string())
}

} // verus!
