//! The JSON codec that payloads pass through.
//!
//! A payload is carried as a `serde_json::Value` and never inspected here.
//! The two directions of the codec are trusted; everything built on them is
//! stated over the names `json_text`, `json_parsed` and `complaint_text`.
//! A request body is taken apart with `json_member` and `json_string`.

use vstd::prelude::*;

verus! {

#[verifier::external_type_specification]
#[verifier::external_body]
pub struct ExJsonValue(serde_json::Value);

#[verifier::external_type_specification]
#[verifier::external_body]
pub struct ExJsonError(serde_json::Error);

/// What the codec answers when it writes a payload as text: the compact
/// text, or its complaint.
pub uninterp spec fn json_text(value: serde_json::Value) -> Result<Seq<char>, serde_json::Error>;

/// What the codec answers when it reads a text: the payload, or its
/// complaint where the text is not JSON that it accepts.
pub uninterp spec fn json_parsed(text: Seq<char>) -> Result<serde_json::Value, serde_json::Error>;

/// The codec's own description of a complaint.
pub uninterp spec fn complaint_text(error: serde_json::Error) -> Seq<char>;

/// The member that a JSON value holds under a key: `None` where the value
/// is no object or the object has no such key.
pub uninterp spec fn json_member(value: serde_json::Value, key: Seq<char>) -> Option<
    serde_json::Value,
>;

/// The text of a JSON value that is a string, `None` for any other value.
pub uninterp spec fn json_string(value: serde_json::Value) -> Option<Seq<char>>;

/// Calls `serde_json::Value::get` with a string key and copies the member
/// that it finds.
///
/// Trusted: the answer depends on value and key alone; it is the one named
/// `json_member`.
#[verifier::external_body]
pub(crate) fn member(value: &serde_json::Value, key: &str) -> (r: Option<serde_json::Value>)
    ensures
        r == json_member(*value, key@),
{
    value.get(key).cloned()
}

/// Calls `serde_json::Value::as_str` and copies the text.
///
/// Trusted: the answer depends on the value alone; it is the one named
/// `json_string`.
#[verifier::external_body]
pub(crate) fn string_of(value: &serde_json::Value) -> (r: Option<String>)
    ensures
        match r {
            Some(text) => json_string(*value) == Some(text@),
            None => json_string(*value) is None,
        },
{
    value.as_str().map(String::from)
}

/// Calls `serde_json::to_string` on a payload.
///
/// Trusted: the answer depends on the payload alone; it is the one named
/// `json_text`. Nothing is claimed about what the text holds or about when
/// the codec complains.
#[verifier::external_body]
pub(crate) fn render_json(value: &serde_json::Value) -> (r: Result<String, serde_json::Error>)
    ensures
        match r {
            Ok(text) => json_text(*value) == Ok::<Seq<char>, serde_json::Error>(text@),
            Err(error) => json_text(*value) == Err::<Seq<char>, serde_json::Error>(error),
        },
{
    serde_json::to_string(value)
}

/// Calls `serde_json::from_str` for a `serde_json::Value`.
///
/// Trusted: the answer depends on the text alone; it is the one named
/// `json_parsed`. Nothing is claimed about which texts are accepted.
#[verifier::external_body]
pub(crate) fn parse_json(text: &str) -> (r: Result<serde_json::Value, serde_json::Error>)
    ensures
        r == json_parsed(text@),
{
    serde_json::from_str::<serde_json::Value>(text)
}

/// Calls `to_string` on a `serde_json::Error`, which writes the codec's
/// description of the complaint.
///
/// Trusted: the text depends on the complaint alone; it is the one named
/// `complaint_text`.
#[verifier::external_body]
pub(crate) fn error_text(error: &serde_json::Error) -> (text: String)
    ensures
        text@ == complaint_text(*error),
{
    error.to_string()
}

} // verus!
