//! Reading single members out of JSON documents.
//!
//! The documents are parsed by `serde_json`. What it reads out of a given
//! document is named here by functions of the document's bytes.

use vstd::prelude::*;

verus! {

/// The error text of `serde_json::from_slice::<serde_json::Value>`, or nothing
/// when the bytes are a JSON document.
pub uninterp spec fn json_error(bytes: Seq<u8>) -> Option<Seq<char>>;

/// The error text of reading a `serde_json::Value` from the start of the bytes,
/// whatever follows it, or nothing when there is one.
pub uninterp spec fn json_value_error(bytes: Seq<u8>) -> Option<Seq<char>>;

/// The keys of the object at the start of the bytes, in the order of
/// `serde_json::Map`, or nothing when there is none.
pub uninterp spec fn json_keys(bytes: Seq<u8>) -> Option<Seq<Seq<char>>>;

/// What `serde_json::Value::as_str` gives for a member of the object at the start
/// of the bytes.
pub uninterp spec fn json_text(bytes: Seq<u8>, key: Seq<char>) -> Option<Seq<char>>;

/// What `serde_json::Value::as_u64` gives for a member of the object at the start
/// of the bytes.
pub uninterp spec fn json_number(bytes: Seq<u8>, key: Seq<char>) -> Option<u64>;

/// What `serde_json::from_value` gives for a member of the object at the start of
/// the bytes, read as a `u32`; nothing for an absent member.
pub uninterp spec fn json_u32(bytes: Seq<u8>, key: Seq<char>) -> Option<Result<u32, Seq<char>>>;

/// What `serde_json::from_value` gives for a member of the object at the start of
/// the bytes, read as a `u64`; nothing for an absent member.
pub uninterp spec fn json_u64(bytes: Seq<u8>, key: Seq<char>) -> Option<Result<u64, Seq<char>>>;

/// What `serde_json::from_value` gives for a member of the object at the start of
/// the bytes, read as a `String`; nothing for an absent member.
pub uninterp spec fn json_string(bytes: Seq<u8>, key: Seq<char>) -> Option<
    Result<Seq<char>, Seq<char>>,
>;

/// A result with text on both sides, as its model.
pub open spec fn text_result(result: Result<String, String>) -> Result<Seq<char>, Seq<char>> {
    match result {
        Ok(text) => Ok(text@),
        Err(text) => Err(text@),
    }
}

/// A result with a text error, as its model.
pub open spec fn value_result<T>(result: Result<T, String>) -> Result<T, Seq<char>> {
    match result {
        Ok(value) => Ok(value),
        Err(text) => Err(text@),
    }
}

/// A member's value, as its model.
pub open spec fn optional_value<T>(result: Option<Result<T, String>>) -> Option<
    Result<T, Seq<char>>,
> {
    match result {
        Some(value) => Some(value_result(value)),
        None => None,
    }
}

/// A member's text, as its model.
pub open spec fn optional_text(result: Option<Result<String, String>>) -> Option<
    Result<Seq<char>, Seq<char>>,
> {
    match result {
        Some(value) => Some(text_result(value)),
        None => None,
    }
}

/// Parses the bytes with `serde_json::from_slice` and returns its error text, if
/// it refuses them.
///
/// The JSON grammar and the wording of the errors are those of the parser; the
/// result is only named.
#[verifier::external_body]
pub(crate) fn document_error(bytes: &[u8]) -> (result: Option<String>)
    ensures
        result.deep_view() == json_error(bytes@),
{
    let parsed: Result<serde_json::Value, serde_json::Error> = serde_json::from_slice(bytes);
    parsed.err().map(|error| error.to_string())
}

/// Reads a value from the start of the bytes with `serde_json::Deserializer` and
/// returns its error text, if there is none.
///
/// The JSON grammar and the wording of the errors are those of the parser; the
/// result is only named.
#[verifier::external_body]
pub(crate) fn value_error(bytes: &[u8]) -> (result: Option<String>)
    ensures
        result.deep_view() == json_value_error(bytes@),
{
    let mut reader = serde_json::Deserializer::from_slice(bytes);
    let read: Result<serde_json::Value, serde_json::Error> = serde::Deserialize::deserialize(
        &mut reader,
    );
    read.err().map(|error| error.to_string())
}

/// Returns the keys of the object at the start of the bytes with
/// `serde_json::Map::keys`.
///
/// The result is that of the parser for the same bytes, and is only named.
#[verifier::external_body]
pub(crate) fn object_keys(bytes: &[u8]) -> (result: Option<Vec<String>>)
    ensures
        result.deep_view() == json_keys(bytes@),
{
    let mut reader = serde_json::Deserializer::from_slice(bytes);
    let value: serde_json::Value = serde::Deserialize::deserialize(&mut reader).ok()?;
    Some(value.as_object()?.keys().cloned().collect())
}

/// Reads a member of the object at the start of the bytes with
/// `serde_json::Value::as_str`.
///
/// The result is that of the parser for the same bytes, and is only named.
#[verifier::external_body]
pub(crate) fn member_text(bytes: &[u8], key: &str) -> (result: Option<String>)
    ensures
        result.deep_view() == json_text(bytes@, key@),
{
    let mut reader = serde_json::Deserializer::from_slice(bytes);
    let value: serde_json::Value = serde::Deserialize::deserialize(&mut reader).ok()?;
    Some(value.get(key)?.as_str()?.to_owned())
}

/// Reads a member of the object at the start of the bytes with
/// `serde_json::Value::as_u64`.
///
/// The result is that of the parser for the same bytes, and is only named.
#[verifier::external_body]
pub(crate) fn member_number(bytes: &[u8], key: &str) -> (result: Option<u64>)
    ensures
        result == json_number(bytes@, key@),
{
    let mut reader = serde_json::Deserializer::from_slice(bytes);
    let value: serde_json::Value = serde::Deserialize::deserialize(&mut reader).ok()?;
    value.get(key)?.as_u64()
}

/// Reads a member of the object at the start of the bytes as a `u32` with
/// `serde_json::from_value`.
///
/// The result is that of the parser for the same bytes, and is only named.
#[verifier::external_body]
pub(crate) fn member_u32(bytes: &[u8], key: &str) -> (result: Option<Result<u32, String>>)
    ensures
        optional_value(result) == json_u32(bytes@, key@),
{
    let mut reader = serde_json::Deserializer::from_slice(bytes);
    let value: serde_json::Value = serde::Deserialize::deserialize(&mut reader).ok()?;
    let member: serde_json::Value = value.get(key)?.clone();
    Some(serde_json::from_value(member).map_err(|error| error.to_string()))
}

/// Reads a member of the object at the start of the bytes as a `u64` with
/// `serde_json::from_value`.
///
/// The result is that of the parser for the same bytes, and is only named.
#[verifier::external_body]
pub(crate) fn member_u64(bytes: &[u8], key: &str) -> (result: Option<Result<u64, String>>)
    ensures
        optional_value(result) == json_u64(bytes@, key@),
{
    let mut reader = serde_json::Deserializer::from_slice(bytes);
    let value: serde_json::Value = serde::Deserialize::deserialize(&mut reader).ok()?;
    let member: serde_json::Value = value.get(key)?.clone();
    Some(serde_json::from_value(member).map_err(|error| error.to_string()))
}

/// Reads a member of the object at the start of the bytes as a `String` with
/// `serde_json::from_value`.
///
/// The result is that of the parser for the same bytes, and is only named.
#[verifier::external_body]
pub(crate) fn member_string(bytes: &[u8], key: &str) -> (result: Option<Result<String, String>>)
    ensures
        optional_text(result) == json_string(bytes@, key@),
{
    let mut reader = serde_json::Deserializer::from_slice(bytes);
    let value: serde_json::Value = serde::Deserialize::deserialize(&mut reader).ok()?;
    let member: serde_json::Value = value.get(key)?.clone();
    Some(serde_json::from_value(member).map_err(|error| error.to_string()))
}

} // verus!
