//! JSON documents, as `serde_json` holds them.
//!
//! A `serde_json::Value` is opaque to the verifier. What it holds is named by
//! `json_of`, and the accessors below are believed, not proved, to read it as
//! their contracts say.

use vstd::prelude::*;

verus! {

/// `serde_json::Value`, a JSON document in memory. Nothing is claimed of it
/// here.
#[verifier::external_type_specification]
#[verifier::external_body]
pub struct ExValue(serde_json::Value);

/// What a JSON value holds. Numbers are not told apart.
pub enum Json {
    Null,
    Bool(bool),
    Number,
    Text(Seq<char>),
    Array(Seq<Json>),
    Object(Map<Seq<char>, Json>),
}

/// `serde_json::Error`, why a text was not accepted as a JSON document.
/// Nothing is claimed of it here.
#[verifier::external_type_specification]
#[verifier::external_body]
pub struct ExError(serde_json::Error);

/// What `value` holds.
pub uninterp spec fn json_of(value: serde_json::Value) -> Json;

/// What `text` holds when read as one JSON document, or `None` where it is
/// not one.
pub uninterp spec fn document(text: Seq<char>) -> Option<Json>;

/// What each of `values` holds, in order.
pub open spec fn json_of_each(values: Seq<serde_json::Value>) -> Seq<Json> {
    values.map_values(|value: serde_json::Value| json_of(value))
}

/// The member `key` of a JSON object.
pub open spec fn field(value: Json, key: Seq<char>) -> Option<Json> {
    match value {
        Json::Object(fields) => if fields.contains_key(key) {
            Some(fields[key])
        } else {
            None
        },
        _ => None,
    }
}

/// The items of a JSON array.
pub open spec fn items(value: Json) -> Option<Seq<Json>> {
    match value {
        Json::Array(items) => Some(items),
        _ => None,
    }
}

/// The characters of a JSON string.
pub open spec fn text(value: Json) -> Option<Seq<char>> {
    match value {
        Json::Text(text) => Some(text),
        _ => None,
    }
}

/// `serde_json::Value::get` with a string key: the member `key` if `value`
/// is an object that has it, and `None` for any other value.
#[verifier::external_body]
pub(crate) fn get<'a>(value: &'a serde_json::Value, key: &str) -> (member: Option<
    &'a serde_json::Value,
>)
    ensures
        match member {
            Some(inner) => field(json_of(*value), key@) == Some(json_of(*inner)),
            None => field(json_of(*value), key@) is None,
        },
{
    value.get(key)
}

/// `serde_json::Value::as_array`: the items if `value` is an array, and
/// `None` for any other value.
#[verifier::external_body]
pub(crate) fn as_array(value: &serde_json::Value) -> (array: Option<&Vec<serde_json::Value>>)
    ensures
        match array {
            Some(inner) => items(json_of(*value)) == Some(json_of_each(inner@)),
            None => items(json_of(*value)) is None,
        },
{
    value.as_array()
}

/// `serde_json::Value::as_str`: the characters if `value` is a string, and
/// `None` for any other value.
#[verifier::external_body]
pub(crate) fn as_str(value: &serde_json::Value) -> (string: Option<&str>)
    ensures
        match string {
            Some(inner) => text(json_of(*value)) == Some(inner@),
            None => text(json_of(*value)) is None,
        },
{
    value.as_str()
}

/// `serde_json::from_str`, read as a `Value`: whether `text` is accepted as
/// a JSON document, and what the value then holds, depend on `text` alone.
#[verifier::external_body]
pub(crate) fn from_str(text: &str) -> (value: Result<serde_json::Value, serde_json::Error>)
    ensures
        match value {
            Ok(inner) => document(text@) == Some(json_of(inner)),
            Err(_) => document(text@) is None,
        },
{
    serde_json::from_str(text)
}

} // verus!
