//! JSON documents as `serde_json` parses them, and the view of them that the
//! login protocol reads.

use vstd::prelude::*;

verus! {

/// A parsed JSON document of `serde_json`.
#[verifier::external_type_specification]
#[verifier::external_body]
pub struct ExJsonValue(serde_json::Value);

/// The reason `serde_json` gives for refusing a text.
#[verifier::external_type_specification]
#[verifier::external_body]
pub struct ExJsonError(serde_json::Error);

/// What a JSON value holds, as far as this library reads it.
pub enum JsonModel {
    Null,
    Bool(bool),
    /// A number, with its value where it is an integer that fits in `i64`.
    Number(Option<i64>),
    Text(Seq<char>),
    /// An array; its elements are never read here.
    Array,
    Object(Map<Seq<char>, JsonModel>),
}

/// What a `serde_json::Value` holds.
pub uninterp spec fn json_model(value: serde_json::Value) -> JsonModel;

/// The document that `serde_json::from_str` reads from a text, where it
/// accepts the text.
pub uninterp spec fn json_parsed(text: Seq<char>) -> Option<JsonModel>;

/// The member of an object under a key; nothing for a missing key and for
/// a value that is no object.
pub open spec fn field_of(model: JsonModel, key: Seq<char>) -> Option<JsonModel> {
    match model {
        JsonModel::Object(fields) => if fields.contains_key(key) {
            Some(fields[key])
        } else {
            None
        },
        _ => None,
    }
}

/// The boolean that a value is, if it is one.
pub open spec fn bool_of(model: JsonModel) -> Option<bool> {
    match model {
        JsonModel::Bool(flag) => Some(flag),
        _ => None,
    }
}

/// The string that a value is, if it is one.
pub open spec fn text_of(model: JsonModel) -> Option<Seq<char>> {
    match model {
        JsonModel::Text(text) => Some(text),
        _ => None,
    }
}

/// The `i64` that a value is, if it is an integer in that range.
pub open spec fn integer_of(model: JsonModel) -> Option<i64> {
    match model {
        JsonModel::Number(value) => value,
        _ => None,
    }
}

/// `serde_json::from_str` at `serde_json::Value`: the parsed document where
/// the text is accepted, the parser's error where it is not. Which texts are
/// accepted, and as what, is left to `serde_json`; the contract only says
/// that this depends on the text alone.
#[verifier::external_body]
pub(crate) fn parse_document(text: &str) -> (result: Result<serde_json::Value, serde_json::Error>)
    ensures
        match result {
            Ok(document) => json_parsed(text@) == Some(json_model(document)),
            Err(_) => json_parsed(text@) is None,
        },
{
    serde_json::from_str::<serde_json::Value>(text)
}

/// `serde_json::Value::is_object`: whether the value is a JSON object.
#[verifier::external_body]
pub(crate) fn is_object(value: &serde_json::Value) -> (answer: bool)
    ensures
        answer == (json_model(*value) is Object),
{
    value.is_object()
}

/// `serde_json::Value::get` with a string key: the member under that key
/// where the value is an object that has it, nothing otherwise.
#[verifier::external_body]
pub(crate) fn member<'a>(value: &'a serde_json::Value, key: &str) -> (found: Option<
    &'a serde_json::Value,
>)
    ensures
        match found {
            Some(inner) => field_of(json_model(*value), key@) == Some(json_model(*inner)),
            None => field_of(json_model(*value), key@) is None,
        },
{
    value.get(key)
}

/// `serde_json::Value::is_null`: whether the value is JSON `null`.
#[verifier::external_body]
pub(crate) fn is_null(value: &serde_json::Value) -> (answer: bool)
    ensures
        answer == (json_model(*value) is Null),
{
    value.is_null()
}

/// `serde_json::Value::as_bool`: the boolean where the value is one.
#[verifier::external_body]
pub(crate) fn as_bool(value: &serde_json::Value) -> (flag: Option<bool>)
    ensures
        flag == bool_of(json_model(*value)),
{
    value.as_bool()
}

/// `serde_json::Value::as_str`: the string where the value is one.
#[verifier::external_body]
pub(crate) fn as_text<'a>(value: &'a serde_json::Value) -> (text: Option<&'a str>)
    ensures
        match text {
            Some(slice) => text_of(json_model(*value)) == Some(slice@),
            None => text_of(json_model(*value)) is None,
        },
{
    value.as_str()
}

/// `serde_json::Value::as_i64`: the integer where the value is a number
/// that is an integer and fits in `i64`.
#[verifier::external_body]
pub(crate) fn as_integer(value: &serde_json::Value) -> (number: Option<i64>)
    ensures
        number == integer_of(json_model(*value)),
{
    value.as_i64()
}

} // verus!
