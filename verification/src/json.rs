//! JSON documents, read through `serde_json`.
//!
//! A parsed document is opaque to the verifier. What the rest of the library
//! reads from one, the string-valued and the number-valued members of an
//! object, is given a name here, and the lookups are stated over those names.
use vstd::prelude::*;

verus! {

#[verifier::external_type_specification]
#[verifier::external_body]
pub struct ExJsonValue(serde_json::Value);

#[verifier::external_type_specification]
#[verifier::external_body]
pub struct ExJsonError(serde_json::Error);

/// The members of the JSON object `doc` whose value is a JSON string, by key.
/// Empty where `doc` is not an object.
pub uninterp spec fn json_text_members(doc: serde_json::Value) -> Map<Seq<char>, Seq<char>>;

/// The members of the JSON object `doc` whose value is a number that fits an
/// unsigned 64-bit integer, by key. Empty where `doc` is not an object.
pub uninterp spec fn json_number_members(doc: serde_json::Value) -> Map<Seq<char>, u64>;

/// The document that JSON text stands for; `None` where the bytes are not
/// JSON text.
pub uninterp spec fn json_document(bytes: Seq<u8>) -> Option<serde_json::Value>;

/// Calls `serde_json::from_slice` for a `serde_json::Value`. The outcome
/// depends on the bytes alone and is `json_document` of them: an error where
/// that is `None`, else the document.
#[verifier::external_body]
pub(crate) fn json_from_bytes(bytes: &[u8]) -> (doc: Result<
    serde_json::Value,
    serde_json::Error,
>)
    ensures
        doc is Ok <==> json_document(bytes@) is Some,
        doc is Ok ==> json_document(bytes@) == Some(doc->Ok_0),
{
    serde_json::from_slice::<serde_json::Value>(bytes)
}

/// Calls `serde_json::Value::get` with a string key and `Value::as_str` on
/// what it finds: the member's text where `doc` is an object that has the key
/// with a string value, `None` otherwise. The contract says that this is the
/// lookup of `key` in `json_text_members`.
#[verifier::external_body]
pub(crate) fn json_text_member(doc: &serde_json::Value, key: &str) -> (text: Option<String>)
    ensures
        text is Some <==> json_text_members(*doc).contains_key(key@),
        text is Some ==> text->0@ == json_text_members(*doc)[key@],
{
    match doc.get(key) {
        Some(member) => member.as_str().map(String::from),
        None => None,
    }
}

/// Calls `serde_json::Value::get` with a string key and `Value::as_u64` on
/// what it finds: the member's number where `doc` is an object that has the
/// key with a non-negative integer below 2^64, `None` otherwise. The contract
/// says that this is the lookup of `key` in `json_number_members`.
#[verifier::external_body]
pub(crate) fn json_number_member(doc: &serde_json::Value, key: &str) -> (number: Option<u64>)
    ensures
        number is Some <==> json_number_members(*doc).contains_key(key@),
        number is Some ==> number->0 == json_number_members(*doc)[key@],
{
    match doc.get(key) {
        Some(member) => member.as_u64(),
        None => None,
    }
}

} // verus!
