//! JSON documents, as far as the translation protocol reads and writes them.
//!
//! Parsing and string escaping are done by `serde_json`. This module gives the
//! parsed document a mathematical model and states, without proof, what the
//! few `serde_json` calls made here return in terms of that model.

use vstd::prelude::*;

verus! {

/// A JSON document as a mathematical value. Numbers are not told apart.
pub enum Json {
    Null,
    Bool(bool),
    Number,
    Text(Seq<char>),
    Array(Seq<Json>),
    Object(Map<Seq<char>, Json>),
}

#[verifier::external_type_specification]
#[verifier::external_body]
pub struct ExJsonValue(serde_json::Value);

/// The document that a parsed `serde_json::Value` holds.
pub uninterp spec fn json_of(value: serde_json::Value) -> Json;

/// The document that `text` denotes, or `None` where `text` is not one JSON
/// document that `serde_json` accepts.
pub uninterp spec fn json_document(text: Seq<char>) -> Option<Json>;

/// The member `name` of a document, if the document is an object that has it.
pub open spec fn json_member(doc: Json, name: Seq<char>) -> Option<Json> {
    match doc {
        Json::Object(fields) => if fields.contains_key(name) {
            Some(fields[name])
        } else {
            None
        },
        _ => None,
    }
}

/// The documents held by a list of parsed values.
pub open spec fn jsons_of(values: Seq<serde_json::Value>) -> Seq<Json> {
    values.map_values(|v: serde_json::Value| json_of(v))
}

/// Parses `text` as one JSON document.
///
/// Calls `serde_json::from_str` for a `serde_json::Value`. Trusted: whether it
/// succeeds, and the document that comes back, depend on the text alone.
#[verifier::external_body]
pub(crate) fn parse_document(text: &str) -> (parsed: Option<serde_json::Value>)
    ensures
        match parsed {
            Some(value) => json_document(text@) == Some(json_of(value)),
            None => json_document(text@) is None,
        },
{
    serde_json::from_str::<serde_json::Value>(text).ok()
}

/// The member `name` of `value`.
///
/// Calls `serde_json::Value::get` with a string index. Trusted: it returns the
/// member exactly when the value is an object that has it.
#[verifier::external_body]
pub(crate) fn value_member<'a>(value: &'a serde_json::Value, name: &str) -> (member: Option<
    &'a serde_json::Value,
>)
    ensures
        match member {
            Some(found) => json_member(json_of(*value), name@) == Some(json_of(*found)),
            None => json_member(json_of(*value), name@) is None,
        },
{
    value.get(name)
}

/// The elements of `value`, if it is an array.
///
/// Calls `serde_json::Value::as_array`. Trusted: it returns the elements, in
/// order, exactly when the value is an array.
#[verifier::external_body]
pub(crate) fn value_items(value: &serde_json::Value) -> (items: Option<&Vec<serde_json::Value>>)
    ensures
        match items {
            Some(list) => json_of(*value) == Json::Array(jsons_of(list@)),
            None => !(json_of(*value) is Array),
        },
{
    value.as_array()
}

/// The text of `value`, if it is a string.
///
/// Calls `serde_json::Value::as_str`. Trusted: it returns the text exactly when
/// the value is a string.
#[verifier::external_body]
pub(crate) fn value_text(value: &serde_json::Value) -> (text: Option<&str>)
    ensures
        match text {
            Some(s) => json_of(*value) == Json::Text(s@),
            None => !(json_of(*value) is Text),
        },
{
    value.as_str()
}

/// Whether `value` is `null`.
///
/// Calls `serde_json::Value::is_null`.
#[verifier::external_body]
pub(crate) fn value_is_null(value: &serde_json::Value) -> (null: bool)
    ensures
        null == (json_of(*value) is Null),
{
    value.is_null()
}

/// Whether `value` is an object.
///
/// Calls `serde_json::Value::is_object`.
#[verifier::external_body]
pub(crate) fn value_is_object(value: &serde_json::Value) -> (object: bool)
    ensures
        object == (json_of(*value) is Object),
{
    value.is_object()
}

/// The JSON string literal for `text`: the text between double quotes, with
/// the escapes that `serde_json` writes.
pub uninterp spec fn json_string(text: Seq<char>) -> Seq<char>;

/// Writes `text` as a JSON string literal.
///
/// Calls `serde_json::to_string` on a string slice, for which it does not
/// fail. Trusted: the literal depends on the text alone.
#[verifier::external_body]
pub(crate) fn quote_json(text: &str) -> (literal: String)
    ensures
        literal@ == json_string(text@),
{
    serde_json::to_string(text).unwrap_or_default()
}

} // verus!
