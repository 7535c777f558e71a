//! JSON text, as `serde_json` reads it.

use vstd::prelude::*;
use crate::models::tag::opt_text;

verus! {

#[verifier::external_type_specification]
#[verifier::external_body]
pub struct ExJsonValue(serde_json::Value);

#[verifier::external_type_specification]
#[verifier::external_body]
pub struct ExJsonError(serde_json::Error);

/// Whether `text` is one JSON value.
pub uninterp spec fn json_text_valid(text: Seq<char>) -> bool;

/// The string that the member `key` of the JSON object `text` holds, if
/// `text` is a JSON object with such a member and it is a string.
pub uninterp spec fn json_string_member(text: Seq<char>, key: Seq<char>) -> Option<Seq<char>>;

/// The value that `serde_json::from_str` reads from the JSON text `text`.
pub uninterp spec fn json_value_of(text: Seq<char>) -> serde_json::Value;

/// Calls `serde_json::from_str` for a `serde_json::Value`. Whether it
/// succeeds and the value it reads are named; both depend on the text alone.
#[verifier::external_body]
pub(crate) fn parse_json_value(text: &str) -> (r: Result<serde_json::Value, serde_json::Error>)
    ensures
        r is Ok <==> json_text_valid(text@),
        r matches Ok(v) ==> v == json_value_of(text@),
{
    serde_json::from_str(text)
}

/// Calls `serde_json::from_str` for a `serde_json::Value`, then
/// `serde_json::Value::get` with `key` and `serde_json::Value::as_str` on
/// the member. The result is named; the contract adds that a member is only
/// found in valid JSON text.
#[verifier::external_body]
pub(crate) fn json_member_string(text: &str, key: &str) -> (r: Option<String>)
    ensures
        opt_text(r) == json_string_member(text@, key@),
        r is Some ==> json_text_valid(text@),
{
    serde_json::from_str::<serde_json::Value>(text).ok().and_then(
        |v| v.get(key).and_then(|m| m.as_str()).map(|s| s.to_string()),
    )
}

/// Reads a user's profile, as Discord or the cache gives its JSON text:
/// the value the text holds, or `None` where it is not JSON.
pub fn read_profile(text: &str) -> (r: Option<serde_json::Value>)
    ensures
        r is Some <==> json_text_valid(text@),
        r matches Some(v) ==> v == json_value_of(text@),
{
    match parse_json_value(text) {
        Ok(v) => Some(v),
        Err(_) => None,
    }
}

/// The texts of a sequence of strings.
pub open spec fn texts(v: Seq<String>) -> Seq<Seq<char>> {
    v.map_values(|s: String| s@)
}

/// Reads each of `items` as JSON, in order; `None` if any of them is not
/// valid JSON.
pub fn parse_all(items: &Vec<String>) -> (r: Option<Vec<serde_json::Value>>)
    ensures
        r is Some <==> forall|i: int| 0 <= i < items@.len() ==> json_text_valid(#[trigger] items@[i]@),
        r matches Some(v) ==> v@.len() == items@.len(),
        r matches Some(v) ==> forall|i: int| 0 <= i < items@.len() ==> #[trigger] v@[i] == json_value_of(items@[i]@),
{
    let mut out: Vec<serde_json::Value> = Vec::new();
    let mut i: usize = 0;
    while i < items.len()
        invariant
            i <= items.len(),
            out@.len() == i,
            forall|k: int| 0 <= k < i ==> json_text_valid(#[trigger] items@[k]@),
            forall|k: int| 0 <= k < i ==> #[trigger] out@[k] == json_value_of(items@[k]@),
        decreases items.len() - i,
    {
        match parse_json_value(items[i].as_str()) {
            Ok(v) => out.push(v),
            Err(_) => {
                return None;
            },
        }
        i = i + 1;
    }
    Some(out)
}

} // verus!
