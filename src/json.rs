//! What the library relies on from serde_json.
use vstd::prelude::*;

verus! {

#[verifier::external_type_specification]
#[verifier::external_body]
pub struct ExJsonValue(serde_json::Value);

#[verifier::external_type_specification]
#[verifier::external_body]
pub struct ExJsonError(serde_json::Error);

#[verifier::external_type_specification]
#[verifier::external_body]
#[verifier::reject_recursive_types(K)]
#[verifier::reject_recursive_types(V)]
pub struct ExJsonMap<K, V>(serde_json::Map<K, V>);

/// Relies on the `Clone` that serde_json derives for `Value`: an equal value.
pub assume_specification[ <serde_json::Value as Clone>::clone ](v: &serde_json::Value) -> (r:
    serde_json::Value)
    ensures
        r == *v,
;

/// The JSON value that a text denotes, if it is one.
pub uninterp spec fn json_of(text: Seq<char>) -> Option<serde_json::Value>;

/// The JSON string value that holds a text.
pub uninterp spec fn json_string_of(text: Seq<char>) -> serde_json::Value;

/// The entries of a JSON object, by key.
pub uninterp spec fn json_entries(m: serde_json::Map<String, serde_json::Value>) -> Map<
    Seq<char>,
    serde_json::Value,
>;

/// The entries of an empty object.
pub open spec fn no_entries() -> Map<Seq<char>, serde_json::Value> {
    Map::empty()
}

/// Relies on `serde_json::from_str`: parses a whole text as one JSON value,
/// which depends on the text alone.
#[verifier::external_body]
pub(crate) fn parse_json(text: &str) -> (r: Result<serde_json::Value, serde_json::Error>)
    ensures
        r is Ok <==> json_of(text@) is Some,
        r is Ok ==> json_of(text@) == Some(r->Ok_0),
{
    serde_json::from_str(text)
}

/// Relies on `serde_json::Value::String`: the JSON string holding `text`.
#[verifier::external_body]
pub(crate) fn json_string(text: String) -> (r: serde_json::Value)
    ensures
        r == json_string_of(text@),
{
    serde_json::Value::String(text)
}

/// Relies on `serde_json::Map::new`: an object without entries.
#[verifier::external_body]
pub(crate) fn json_map_new() -> (r: serde_json::Map<String, serde_json::Value>)
    ensures
        json_entries(r) == no_entries(),
{
    serde_json::Map::new()
}

/// Relies on `serde_json::Map::insert`: sets the entry of `key`, replacing
/// any earlier one.
#[verifier::external_body]
pub(crate) fn json_map_insert(
    m: &mut serde_json::Map<String, serde_json::Value>,
    key: String,
    value: serde_json::Value,
)
    ensures
        json_entries(*final(m)) == json_entries(*old(m)).insert(key@, value),
{
    m.insert(key, value);
}

/// Relies on `serde_json::Map::is_empty`: whether the object has no entries.
#[verifier::external_body]
pub(crate) fn json_map_is_empty(m: &serde_json::Map<String, serde_json::Value>) -> (r: bool)
    ensures
        r <==> json_entries(*m) == no_entries(),
{
    m.is_empty()
}

} // verus!
