//! The few JSON values that the client builds itself: strings and objects,
//! made by `serde_json` and known here by name only.

use vstd::prelude::*;

verus! {

/// The JSON string with the characters `text`.
pub uninterp spec fn string_value(text: Seq<char>) -> serde_json::Value;

/// The JSON object built from the key-value pairs `entries`, taken in order.
pub uninterp spec fn object_value(
    entries: Seq<(Seq<char>, serde_json::Value)>,
) -> serde_json::Value;

/// Key-value pairs with each key as its character sequence.
pub open spec fn entries_view(entries: Seq<(String, serde_json::Value)>) -> Seq<
    (Seq<char>, serde_json::Value),
> {
    entries.map_values(|entry: (String, serde_json::Value)| (entry.0@, entry.1))
}

/// `serde_json::Value::from` on a string slice, which makes the
/// `Value::String` with a copy of the slice. Trusted: the value made
/// depends on the characters of `text` alone.
#[verifier::external_body]
pub(crate) fn json_string(text: &str) -> (value: serde_json::Value)
    ensures
        value == string_value(text@),
{
    serde_json::Value::from(text)
}

/// `serde_json::Value::from_iter` on key-value pairs, which collects them
/// into a map, a later pair replacing an earlier one with the same key, and
/// makes the `Value::Object` of that map. Trusted: the value made depends
/// on the keys' characters and the values alone, taken in order.
#[verifier::external_body]
pub(crate) fn json_object(entries: Vec<(String, serde_json::Value)>) -> (value: serde_json::Value)
    ensures
        value == object_value(entries_view(entries@)),
{
    entries.into_iter().collect()
}

} // verus!
