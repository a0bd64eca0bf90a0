//! JSON documents, as far as the library reads them.
//!
//! Reading JSON text is `serde_json`'s work. A document stays a
//! `serde_json::Value`; [`Json`] is the mathematical value that it stands for, and
//! the functions below say in terms of it what each reading returns.

use vstd::prelude::*;

verus! {

/// `serde_json::Value`, a parsed document or a part of one. Nothing is known of
/// a value but what the functions of this module say.
#[verifier::external_type_specification]
#[verifier::external_body]
pub struct ExValue(serde_json::Value);

/// `serde_json::Error`, the reason why a text is no document.
#[verifier::external_type_specification]
#[verifier::external_body]
pub struct ExError(serde_json::Error);

/// A JSON value. A number is held by the bit pattern of the double-precision
/// number that it is read as; the library never computes with it.
pub enum Json {
    Null,
    Bool(bool),
    Number(u64),
    Text(Seq<char>),
    Array(Seq<Json>),
    Object(Map<Seq<char>, Json>),
}

/// The member of an object under `key`; nothing where `json` is no object or has
/// no such member.
pub open spec fn member_of(json: Json, key: Seq<char>) -> Option<Json> {
    match json {
        Json::Object(members) => if members.contains_key(key) {
            Some(members[key])
        } else {
            None
        },
        _ => None,
    }
}

/// The characters of a JSON string; nothing for any other value.
pub open spec fn text_of(json: Json) -> Option<Seq<char>> {
    match json {
        Json::Text(text) => Some(text),
        _ => None,
    }
}

/// The bit pattern of a JSON number; nothing for any other value.
pub open spec fn number_of(json: Json) -> Option<u64> {
    match json {
        Json::Number(bits) => Some(bits),
        _ => None,
    }
}

/// What `serde_json::from_str` makes of a text: the JSON value that it is read as,
/// or the message that says why it is read as none.
pub uninterp spec fn document_of(text: Seq<char>) -> Result<Json, Seq<char>>;

/// The JSON value that a `serde_json::Value` holds.
pub uninterp spec fn json_of(value: serde_json::Value) -> Json;

/// The message that a `serde_json::Error` displays.
pub uninterp spec fn diagnostic_of(error: serde_json::Error) -> Seq<char>;

/// The view of a parsed document or of the error in its place.
pub open spec fn parsed_view(parsed: Result<serde_json::Value, serde_json::Error>) -> Result<
    Json,
    Seq<char>,
> {
    match parsed {
        Ok(value) => Ok(json_of(value)),
        Err(error) => Err(diagnostic_of(error)),
    }
}

/// Calls `serde_json::from_str` for a `serde_json::Value`. Claimed: only that what
/// the result holds depends on the text alone; `document_of` is its name.
#[verifier::external_body]
pub(crate) fn parse_document(text: &str) -> (parsed: Result<serde_json::Value, serde_json::Error>)
    ensures
        parsed_view(parsed) == document_of(text@),
{
    serde_json::from_str::<serde_json::Value>(text)
}

/// Calls `serde_json::Value::get` with a string key. Claimed: an object gives the
/// member under that key if it has one; an object without it, and every value that
/// is no object, gives nothing.
#[verifier::external_body]
pub(crate) fn member<'a>(value: &'a serde_json::Value, key: &str) -> (found: Option<
    &'a serde_json::Value,
>)
    ensures
        found matches Some(inner) ==> member_of(json_of(*value), key@) == Some(json_of(*inner)),
        found is None ==> member_of(json_of(*value), key@) is None,
{
    value.get(key)
}

/// Calls `serde_json::Value::as_str`. Claimed: a JSON string gives its characters,
/// every other value nothing.
#[verifier::external_body]
pub(crate) fn string_of<'a>(value: &'a serde_json::Value) -> (found: Option<&'a str>)
    ensures
        found matches Some(text) ==> text_of(json_of(*value)) == Some(text@),
        found is None ==> text_of(json_of(*value)) is None,
{
    value.as_str()
}

/// Calls `serde_json::Value::as_f64` and takes the bits of the double with
/// `to_bits`. Claimed: a JSON number gives the bit pattern that stands for it in
/// [`Json`], every other value nothing.
#[verifier::external_body]
pub(crate) fn number_bits(value: &serde_json::Value) -> (found: Option<u64>)
    ensures
        found == number_of(json_of(*value)),
{
    value.as_f64().map(|number| number.to_bits())
}

/// Calls the `Display` of `serde_json::Error` (through `to_string`). Claimed: only
/// that the message depends on the error alone; `diagnostic_of` is its name.
#[verifier::external_body]
pub(crate) fn diagnostic(error: &serde_json::Error) -> (message: String)
    ensures
        message@ == diagnostic_of(*error),
{
    error.to_string()
}

} // verus!
