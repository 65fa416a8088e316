//! The JSON values and objects that environment settings are kept as.
//!
//! Values and objects stay what `serde_json` makes of them. Nothing here
//! looks inside a value; an object is known by the entries it holds.

use vstd::prelude::*;

verus! {

/// `serde_json::Value`, carried through without a look inside.
#[verifier::external_type_specification]
#[verifier::external_body]
pub struct ExJsonValue(serde_json::Value);

/// `serde_json::Map`, known by the entries that `json_entries` names.
#[verifier::external_type_specification]
#[verifier::external_body]
#[verifier::reject_recursive_types(K)]
#[verifier::reject_recursive_types(V)]
pub struct ExJsonObject<K, V>(serde_json::Map<K, V>);

/// What `serde_json::from_str` makes of `text` read as one JSON document:
/// the value, or `None` where `text` is no such document.
pub uninterp spec fn json_decoded(text: Seq<char>) -> Option<serde_json::Value>;

/// The JSON string whose content is `text`.
pub uninterp spec fn json_string(text: Seq<char>) -> serde_json::Value;

/// The entries of a JSON object, by key.
pub uninterp spec fn json_entries(object: serde_json::Map<String, serde_json::Value>) -> Map<
    Seq<char>,
    serde_json::Value,
>;

/// The entries of an object that holds nothing.
pub open spec fn no_entries() -> Map<Seq<char>, serde_json::Value> {
    Map::empty()
}

/// Calls `serde_json::from_str` for a `serde_json::Value`. Trusted: the
/// outcome depends on the text alone, and a text that is rejected gives
/// `None`.
#[verifier::external_body]
pub(crate) fn decode(text: &str) -> (value: Option<serde_json::Value>)
    ensures
        value == json_decoded(text@),
{
    serde_json::from_str::<serde_json::Value>(text).ok()
}

/// Builds `serde_json::Value::String`. Trusted: the value depends on the
/// text alone.
#[verifier::external_body]
pub(crate) fn string_value(text: String) -> (value: serde_json::Value)
    ensures
        value == json_string(text@),
{
    serde_json::Value::String(text)
}

/// Calls `serde_json::Map::new`. Trusted: the new object has no entry.
#[verifier::external_body]
pub(crate) fn empty_object() -> (object: serde_json::Map<String, serde_json::Value>)
    ensures
        json_entries(object) == no_entries(),
{
    serde_json::Map::new()
}

/// Calls `serde_json::Map::insert`. Trusted: afterwards the key is bound to
/// the value and every other entry is as before; the value that the key was
/// bound to before, if any, is handed back.
#[verifier::external_body]
pub(crate) fn object_insert(
    object: &mut serde_json::Map<String, serde_json::Value>,
    key: String,
    value: serde_json::Value,
) -> (previous: Option<serde_json::Value>)
    ensures
        json_entries(*final(object)) == json_entries(*old(object)).insert(key@, value),
        previous == if json_entries(*old(object)).contains_key(key@) {
            Some(json_entries(*old(object))[key@])
        } else {
            None
        },
{
    object.insert(key, value)
}

/// Calls `Clone::clone` of `serde_json::Map`. Trusted: the copy holds the
/// same entries.
#[verifier::external_body]
pub(crate) fn object_clone(object: &serde_json::Map<String, serde_json::Value>) -> (copy:
    serde_json::Map<String, serde_json::Value>)
    ensures
        json_entries(copy) == json_entries(*object),
{
    object.clone()
}

} // verus!
