//! Decoding the body of a create request.
//!
//! The body is a JSON object. Its member `type` is a string and must be
//! there; `payload` is any JSON value and must be there; `id` is a string
//! and may be left out. Other members are ignored. Anything else is a
//! malformed request.

use vstd::prelude::*;
use crate::codec::{
    complaint_text, error_text, json_member, json_parsed, json_string, member, parse_json,
    string_of,
};
use crate::record::{CreateRequest, CreateRequestView, ErrorKind, ErrorView, ServiceError};
use crate::surface::status_of;

verus! {

/// A member that is meant to be a string: `None` where it is absent, else
/// its text, or `None` where it is no string.
pub type TextMember = Option<Option<String>>;

pub open spec fn text_member_view(m: TextMember) -> Option<Option<Seq<char>>> {
    match m {
        Some(Some(text)) => Some(Some(text@)),
        Some(None) => Some(None),
        None => None,
    }
}

/// The member under `key` as a string member.
pub open spec fn json_text_member(value: serde_json::Value, key: Seq<char>) -> Option<
    Option<Seq<char>>,
> {
    match json_member(value, key) {
        Some(inner) => Some(json_string(inner)),
        None => None,
    }
}

pub open spec fn missing_type_text() -> Seq<char> {
    "Missing field: type"@
}

pub open spec fn type_not_string_text() -> Seq<char> {
    "Field type must be a string"@
}

pub open spec fn id_not_string_text() -> Seq<char> {
    "Field id must be a string"@
}

pub open spec fn missing_payload_text() -> Seq<char> {
    "Missing field: payload"@
}

pub open spec fn malformed(detail: Seq<char>) -> Result<CreateRequestView, ErrorView> {
    Err(ErrorView { kind: ErrorKind::MalformedRequest, detail: detail })
}

/// The request that the members of a body make, or what is wrong with
/// them. The kind is looked at first, then the identifier, then the
/// payload.
pub open spec fn request_of(
    id: Option<Option<Seq<char>>>,
    kind: Option<Option<Seq<char>>>,
    payload: Option<serde_json::Value>,
) -> Result<CreateRequestView, ErrorView> {
    match kind {
        None => malformed(missing_type_text()),
        Some(None) => malformed(type_not_string_text()),
        Some(Some(kind_text)) => match id {
            Some(None) => malformed(id_not_string_text()),
            _ => match payload {
                None => malformed(missing_payload_text()),
                Some(value) => Ok(
                    CreateRequestView {
                        id: match id {
                            Some(Some(id_text)) => Some(id_text),
                            _ => None,
                        },
                        kind: kind_text,
                        payload: value,
                    },
                ),
            },
        },
    }
}

/// The request that a body makes, or what is wrong with it.
pub open spec fn decoded(body: Seq<char>) -> Result<CreateRequestView, ErrorView> {
    match json_parsed(body) {
        Ok(value) => request_of(
            json_text_member(value, "id"@),
            json_text_member(value, "type"@),
            json_member(value, "payload"@),
        ),
        Err(complaint) => malformed(complaint_text(complaint)),
    }
}

pub open spec fn request_result_view(r: Result<CreateRequest, ServiceError>) -> Result<
    CreateRequestView,
    ErrorView,
> {
    match r {
        Ok(request) => Ok(request@),
        Err(error) => Err(error@),
    }
}

fn reject(detail: &str) -> (r: Result<CreateRequest, ServiceError>)
    ensures
        request_result_view(r) == malformed(detail@),
{
    Err(ServiceError { kind: ErrorKind::MalformedRequest, detail: detail.to_owned() })
}

/// Makes a create request of the members that a body holds.
pub fn build_request(id: TextMember, kind: TextMember, payload: Option<serde_json::Value>) -> (r:
    Result<CreateRequest, ServiceError>)
    ensures
        request_result_view(r) == request_of(
            text_member_view(id),
            text_member_view(kind),
            payload,
        ),
{
    let kind = match kind {
        None => { return reject("Missing field: type"); },
        Some(None) => { return reject("Field type must be a string"); },
        Some(Some(text)) => text,
    };
    let id = match id {
        Some(None) => { return reject("Field id must be a string"); },
        Some(Some(text)) => Some(text),
        None => None,
    };
    match payload {
        None => reject("Missing field: payload"),
        Some(payload) => Ok(CreateRequest { id, kind, payload }),
    }
}

fn text_member(value: &serde_json::Value, key: &str) -> (r: TextMember)
    ensures
        text_member_view(r) == json_text_member(*value, key@),
{
    match member(value, key) {
        Some(inner) => Some(string_of(&inner)),
        None => None,
    }
}

/// Decodes the body of a create request.
///
/// A body that is not JSON is malformed, with the codec's complaint for
/// detail; so is one whose members do not make a request.
pub fn decode_create(body: &str) -> (r: Result<CreateRequest, ServiceError>)
    ensures
        request_result_view(r) == decoded(body@),
{
    match parse_json(body) {
        Ok(value) => {
            let id = text_member(&value, "id");
            let kind = text_member(&value, "type");
            let payload = member(&value, "payload");
            build_request(id, kind, payload)
        },
        Err(complaint) => Err(
            ServiceError { kind: ErrorKind::MalformedRequest, detail: error_text(&complaint) },
        ),
    }
}

/// Whatever a body holds, a decoding that fails is a malformed request,
/// which is answered with status 400.
pub proof fn decoding_fails_as_malformed(body: Seq<char>)
    ensures
        decoded(body) matches Err(error) ==> error.kind == ErrorKind::MalformedRequest
            && status_of(error.kind) == 400,
        json_parsed(body) is Err ==> decoded(body) is Err,
{
}

} // verus!
