//! The boundary to `serde_json`.
//!
//! Nothing in this file is proved. Each function below makes exactly one call
//! into `serde_json`; its contract gives the call's result a name, so that the
//! verified code can say which document and which member it worked on.

use vstd::prelude::*;

verus! {

/// A parsed JSON document, as `serde_json` holds it. Opaque to the verifier.
#[verifier::external_type_specification]
#[verifier::external_body]
pub struct ExJsonValue(serde_json::Value);

/// The error of `serde_json`. Opaque to the verifier.
#[verifier::external_type_specification]
#[verifier::external_body]
pub struct ExJsonError(serde_json::Error);

/// The document that `serde_json::from_str` reads from `text`, or `None`
/// where it rejects the text.
pub uninterp spec fn json_document(text: Seq<char>) -> Option<serde_json::Value>;

/// The member of `doc` stored under `key`: what `serde_json::Value::get`
/// returns for a string key.
pub uninterp spec fn json_member(doc: serde_json::Value, key: Seq<char>) -> Option<
    serde_json::Value,
>;

/// The text of `doc` where it is a JSON string: what
/// `serde_json::Value::as_str` returns.
pub uninterp spec fn json_text(doc: serde_json::Value) -> Option<Seq<char>>;

/// The number in `doc` where it is a non-negative integer below 2^64: what
/// `serde_json::Value::as_u64` returns.
pub uninterp spec fn json_unsigned(doc: serde_json::Value) -> Option<u64>;

/// The JSON string literal for `text`, quotes and escapes included: what
/// `serde_json::to_string` writes for a string slice.
pub uninterp spec fn json_quoted(text: Seq<char>) -> Seq<char>;

/// Calls `serde_json::from_str::<serde_json::Value>`. The parser reads the
/// whole text and depends on nothing else, so the outcome is a function of the
/// text: `json_document`, which is `None` exactly where the parser fails.
#[verifier::external_body]
pub(crate) fn parse_document(text: &str) -> (parsed: Result<serde_json::Value, serde_json::Error>)
    ensures
        match parsed {
            Ok(doc) => json_document(text@) == Some(doc),
            Err(_) => json_document(text@) is None,
        },
{
    serde_json::from_str::<serde_json::Value>(text)
}

/// Calls `serde_json::Value::get` with a string key. It yields the stored
/// member when `doc` is an object that holds `key`, and `None` otherwise:
/// `json_member`.
#[verifier::external_body]
pub(crate) fn member<'a>(doc: &'a serde_json::Value, key: &str) -> (found: Option<
    &'a serde_json::Value,
>)
    ensures
        match found {
            Some(inner) => json_member(*doc, key@) == Some(*inner),
            None => json_member(*doc, key@) is None,
        },
{
    doc.get(key)
}

/// Calls `serde_json::Value::as_str`: the string's text when `doc` is a JSON
/// string, `None` for every other kind of value: `json_text`.
#[verifier::external_body]
pub(crate) fn text_of<'a>(doc: &'a serde_json::Value) -> (text: Option<&'a str>)
    ensures
        match text {
            Some(t) => json_text(*doc) == Some(t@),
            None => json_text(*doc) is None,
        },
{
    doc.as_str()
}

/// Calls `serde_json::Value::as_u64`: the number when `doc` is a
/// non-negative integer that fits 64 bits, `None` otherwise: `json_unsigned`.
#[verifier::external_body]
pub(crate) fn unsigned_of(doc: &serde_json::Value) -> (number: Option<u64>)
    ensures
        number == json_unsigned(*doc),
{
    doc.as_u64()
}

/// Calls `serde_json::to_string` on a string slice. The serializer writes
/// into memory and depends on the text alone, so its output is a function of
/// the text: `json_quoted`. It fails only where the value's own serializer
/// fails or a map has a key that is no string; a string slice has neither, so
/// the call succeeds.
#[verifier::external_body]
pub(crate) fn quote(text: &str) -> (literal: Result<String, serde_json::Error>)
    ensures
        literal is Ok,
        literal matches Ok(l) ==> l@ == json_quoted(text@),
{
    serde_json::to_string(text)
}

} // verus!
