//! The JSON reader that configuration payloads go through.
//!
//! Parsing is done by `serde_json`. What is assumed of it is written down
//! here, over a mathematical model of a JSON document.

use vstd::prelude::*;

verus! {

/// A JSON document as a mathematical value.
///
/// Numbers are not told apart: nothing here reads one.
pub enum Json {
    Null,
    Bool(bool),
    Number,
    Text(Seq<char>),
    Array(Seq<Json>),
    Object(Map<Seq<char>, Json>),
}

/// `serde_json::Value`, taken as it is: nothing is assumed of what is inside
/// one but through [`json_model`].
#[verifier::external_type_specification]
#[verifier::external_body]
pub struct ExJsonValue(serde_json::Value);

/// `serde_json::Error`, taken as it is: a parse error is only told apart
/// from a success.
#[verifier::external_type_specification]
#[verifier::external_body]
pub struct ExJsonError(serde_json::Error);

/// The document that a `serde_json::Value` holds.
pub uninterp spec fn json_model(value: serde_json::Value) -> Json;

/// The document that `serde_json::from_slice` reads from `bytes`, or `None`
/// where it reports an error.
pub uninterp spec fn json_parse(bytes: Seq<u8>) -> Option<Json>;

/// `serde_json::from_slice::<serde_json::Value>`.
///
/// Assumed: the outcome depends on the bytes alone. A success carries the
/// document named by [`json_parse`]; an error comes exactly where that name
/// is `None`.
#[verifier::external_body]
pub(crate) fn parse_value(bytes: &[u8]) -> (parsed: Result<serde_json::Value, serde_json::Error>)
    ensures
        match parsed {
            Ok(value) => json_parse(bytes@) == Some(json_model(value)),
            Err(_) => json_parse(bytes@) is None,
        },
{
    serde_json::from_slice::<serde_json::Value>(bytes)
}

/// `serde_json::Value::get` with a string index.
///
/// Assumed: the member stored under `key` where the value is an object that
/// has one, and `None` for every other value.
#[verifier::external_body]
pub(crate) fn member<'a>(value: &'a serde_json::Value, key: &str) -> (found: Option<&'a serde_json::Value>)
    ensures
        match found {
            Some(inner) => has_member(json_model(*value), key@)
                && json_model(*inner) == json_model(*value)->Object_0[key@],
            None => !has_member(json_model(*value), key@),
        },
{
    value.get(key)
}

/// `serde_json::Value::as_str`.
///
/// Assumed: the text of a JSON string, and `None` for every other value.
#[verifier::external_body]
pub(crate) fn text<'a>(value: &'a serde_json::Value) -> (found: Option<&'a str>)
    ensures
        match found {
            Some(s) => json_model(*value) == Json::Text(s@),
            None => !(json_model(*value) is Text),
        },
{
    value.as_str()
}

/// Whether `doc` is an object with a member named `key`.
pub open spec fn has_member(doc: Json, key: Seq<char>) -> bool {
    doc is Object && doc->Object_0.contains_key(key)
}

/// The text stored under `key`, where `doc` is an object whose member of that
/// name is a JSON string.
pub open spec fn text_member(doc: Json, key: Seq<char>) -> Option<Seq<char>> {
    if has_member(doc, key) && doc->Object_0[key] is Text {
        Some(doc->Object_0[key]->Text_0)
    } else {
        None
    }
}

/// Reads the string member `key` of a parsed document.
pub fn string_member(value: &serde_json::Value, key: &str) -> (found: Option<String>)
    ensures
        match found {
            Some(s) => text_member(json_model(*value), key@) == Some(s@),
            None => text_member(json_model(*value), key@) is None,
        },
{
    match member(value, key) {
        Some(inner) => match text(inner) {
            Some(s) => Some(s.to_owned()),
            None => None,
        },
        None => None,
    }
}

} // verus!
