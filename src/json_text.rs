use vstd::prelude::*;

use json::{JsonError, JsonValue};

verus! {

#[verifier::external_type_specification]
#[verifier::external_body]
pub struct ExJsonValue(JsonValue);

#[verifier::external_type_specification]
#[verifier::external_body]
pub struct ExJsonError(JsonError);

/// Whether `json::parse` accepts the text as a JSON document.
pub uninterp spec fn json_accepts(text: Seq<char>) -> bool;

/// Relies on `json::parse`: whether it accepts a text depends on the text
/// alone.
#[verifier::external_body]
pub(crate) fn parse_json(text: &str) -> (r: Result<JsonValue, JsonError>)
    ensures
        r is Ok <==> json_accepts(text@),
{
    json::parse(text)
}

/// Relies on `Index<&str>` for `json::JsonValue`: the member under `key`
/// (null when absent or when the value is not an object).
#[verifier::external_body]
pub(crate) fn member<'a>(value: &'a JsonValue, key: &str) -> (r: &'a JsonValue) {
    &value[key]
}

/// Relies on `json::JsonValue::as_str`: the text of a string value.
#[verifier::external_body]
pub(crate) fn as_text(value: &JsonValue) -> (r: Option<String>) {
    match value.as_str() {
        Some(s) => Some(s.to_string()),
        None => None,
    }
}

/// Tells the `Number` variant of `json::JsonValue` from the others.
#[verifier::external_body]
pub(crate) fn is_number(value: &JsonValue) -> (r: bool) {
    match value {
        JsonValue::Number(_) => true,
        _ => false,
    }
}

/// Relies on `IndexMut<&str>` for `json::JsonValue`: sets the member under
/// `key` to the number.
#[verifier::external_body]
pub(crate) fn set_member(value: &mut JsonValue, key: &str, number: u32) {
    value[key] = JsonValue::from(number);
}

/// Relies on the `Display` of `json::JsonError`: its message.
#[verifier::external_body]
pub(crate) fn error_text(e: &JsonError) -> (r: String) {
    e.to_string()
}

} // verus!
