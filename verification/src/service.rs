//! The decisions of the record service.
//!
//! A create is prepared, handed to the backend as one row, and completed
//! with the backend's answer. A fetch is completed with the backend's
//! answer to a select.

use vstd::prelude::*;
use crate::codec::{complaint_text, error_text, json_parsed, json_text, parse_json, render_json};
use crate::identifier::{is_canonical_identifier, lacks_identifier, resolve_identifier};
use crate::record::{
    CreateRequest, ErrorKind, ErrorView, InsertOutcome, InsertOutcomeView, PendingCreate, Record,
    RecordView, RowView, SelectOutcome, SelectOutcomeView, ServiceError, StoredRow, result_view,
};

verus! {

/// Body text of a fetch that found nothing.
pub open spec fn not_found_text() -> Seq<char> {
    "Item not found"@
}

/// Body text of a create whose identifier is taken.
pub open spec fn conflict_text() -> Seq<char> {
    "Item id already exists"@
}

/// Body text of a fetch without an identifier.
pub open spec fn missing_id_text() -> Seq<char> {
    "Missing id query parameter"@
}

/// The row that stores a record whose payload is written as `text`.
pub open spec fn row_for(record: RecordView, text: Seq<char>) -> RowView {
    RowView { id: record.id, kind: record.kind, payload_text: text }
}

/// A prepared create as contracts speak of it.
pub open spec fn pending_view(r: Result<PendingCreate, ServiceError>) -> Result<
    (RecordView, RowView),
    ErrorView,
> {
    match r {
        Ok(pending) => Ok((pending.record@, pending.row@)),
        Err(error) => Err(error@),
    }
}

/// Puts a create together from its settled identifier and the text the
/// codec gave for the payload, or its complaint.
pub fn assemble_create(
    id: String,
    kind: String,
    payload: serde_json::Value,
    rendered: Result<String, String>,
) -> (r: Result<PendingCreate, ServiceError>)
    ensures
        match rendered {
            Ok(text) => r matches Ok(pending) && pending.record@ == (RecordView {
                id: id@,
                kind: kind@,
                payload: payload,
            }) && pending.row@ == row_for(pending.record@, text@),
            Err(message) => pending_view(r) == Err::<(RecordView, RowView), ErrorView>(
                ErrorView { kind: ErrorKind::StorageFailure, detail: message@ },
            ),
        },
{
    match rendered {
        Ok(text) => {
            let row = StoredRow { id: id.clone(), kind: kind.clone(), payload_text: text };
            Ok(PendingCreate { record: Record { id, kind, payload }, row })
        },
        Err(message) => Err(ServiceError { kind: ErrorKind::StorageFailure, detail: message }),
    }
}

/// What a prepared create holds for a request whose payload the codec
/// wrote as `text`: kind and payload are the client's, the row holds the
/// text, and the identifier is the client's where it gave a non-empty one,
/// else a canonical one.
pub open spec fn prepared_for(
    supplied: Option<Seq<char>>,
    kind: Seq<char>,
    payload: serde_json::Value,
    text: Seq<char>,
    record: RecordView,
    row: RowView,
) -> bool {
    &&& record.kind == kind
    &&& record.payload == payload
    &&& row == row_for(record, text)
    &&& record.id.len() > 0
    &&& !lacks_identifier(supplied) ==> Some(record.id) == supplied
    &&& lacks_identifier(supplied) ==> is_canonical_identifier(record.id)
}

/// What a create that was prepared with success holds for a request.
pub open spec fn prepares(
    supplied: Option<Seq<char>>,
    kind: Seq<char>,
    payload: serde_json::Value,
    record: RecordView,
    row: RowView,
) -> bool {
    json_text(payload) matches Ok(text) && prepared_for(supplied, kind, payload, text, record, row)
}

/// Prepares a create: settles the identifier and writes the payload as
/// text, so that one row can be handed to the backend.
///
/// This succeeds exactly where the codec writes the payload. Where it
/// complains, the create fails as a storage failure that carries the
/// complaint.
pub fn prepare_create(request: CreateRequest) -> (r: Result<PendingCreate, ServiceError>)
    ensures
        match json_text(request.payload) {
            Ok(text) => r matches Ok(pending) && prepared_for(
                request@.id,
                request@.kind,
                request@.payload,
                text,
                pending.record@,
                pending.row@,
            ),
            Err(complaint) => pending_view(r) == Err::<(RecordView, RowView), ErrorView>(
                ErrorView { kind: ErrorKind::StorageFailure, detail: complaint_text(complaint) },
            ),
        },
{
    let CreateRequest { id, kind, payload } = request;
    let id = resolve_identifier(id);
    let rendered = match render_json(&payload) {
        Ok(text) => Ok(text),
        Err(error) => Err(error_text(&error)),
    };
    assemble_create(id, kind, payload, rendered)
}

/// What a create answers, given the record it prepared and what the
/// backend said to the insert.
pub open spec fn create_answer(record: RecordView, outcome: InsertOutcomeView) -> Result<
    RecordView,
    ErrorView,
> {
    match outcome {
        InsertOutcomeView::Inserted => Ok(record),
        InsertOutcomeView::UniqueViolation => Err(
            ErrorView { kind: ErrorKind::Conflict, detail: conflict_text() },
        ),
        InsertOutcomeView::BackendError(message) => Err(
            ErrorView { kind: ErrorKind::StorageFailure, detail: message },
        ),
    }
}

/// Completes a create with the backend's answer to the insert.
pub fn complete_create(pending: PendingCreate, outcome: InsertOutcome) -> (r: Result<
    Record,
    ServiceError,
>)
    ensures
        result_view(r) == create_answer(pending.record@, outcome@),
        outcome matches InsertOutcome::Inserted ==> r == Ok::<Record, ServiceError>(pending.record),
{
    match outcome {
        InsertOutcome::Inserted => Ok(pending.record),
        InsertOutcome::UniqueViolation => Err(
            ServiceError { kind: ErrorKind::Conflict, detail: "Item id already exists".to_owned() },
        ),
        InsertOutcome::BackendError(message) => Err(
            ServiceError { kind: ErrorKind::StorageFailure, detail: message },
        ),
    }
}

/// What a row answers as a record, given what the codec said to its
/// payload text: the record with the payload read, or a corrupt payload
/// with the codec's complaint.
pub open spec fn row_answer(row: RowView, parsed: Result<serde_json::Value, Seq<char>>) -> Result<
    RecordView,
    ErrorView,
> {
    match parsed {
        Ok(payload) => Ok(RecordView { id: row.id, kind: row.kind, payload: payload }),
        Err(message) => Err(ErrorView { kind: ErrorKind::CorruptPayload, detail: message }),
    }
}

/// The codec's answer with its complaint as text.
pub open spec fn parsed_text(text: Seq<char>) -> Result<serde_json::Value, Seq<char>> {
    match json_parsed(text) {
        Ok(payload) => Ok(payload),
        Err(complaint) => Err(complaint_text(complaint)),
    }
}

/// The answer of the codec with the complaint as a string's text.
pub open spec fn parsed_view(parsed: Result<serde_json::Value, String>) -> Result<
    serde_json::Value,
    Seq<char>,
> {
    match parsed {
        Ok(payload) => Ok(payload),
        Err(message) => Err(message@),
    }
}

/// Turns a row into the record it stores, given what the codec read from
/// the row's payload text, or its complaint.
pub fn record_from_row(row: StoredRow, parsed: Result<serde_json::Value, String>) -> (r: Result<
    Record,
    ServiceError,
>)
    ensures
        result_view(r) == row_answer(row@, parsed_view(parsed)),
{
    match parsed {
        Ok(payload) => Ok(Record { id: row.id, kind: row.kind, payload }),
        Err(message) => Err(ServiceError { kind: ErrorKind::CorruptPayload, detail: message }),
    }
}

/// What a fetch answers, given what the backend said to the select.
pub open spec fn fetch_answer(outcome: SelectOutcomeView) -> Result<RecordView, ErrorView> {
    match outcome {
        SelectOutcomeView::Found(row) => row_answer(row, parsed_text(row.payload_text)),
        SelectOutcomeView::Missing => Err(
            ErrorView { kind: ErrorKind::NotFound, detail: not_found_text() },
        ),
        SelectOutcomeView::BackendError(message) => Err(
            ErrorView { kind: ErrorKind::StorageFailure, detail: message },
        ),
    }
}

/// Completes a fetch with the backend's answer to the select.
///
/// A row that was found is read back through the codec; a payload text
/// that the codec does not accept is reported as corrupt.
pub fn complete_fetch(outcome: SelectOutcome) -> (r: Result<Record, ServiceError>)
    ensures
        result_view(r) == fetch_answer(outcome@),
{
    match outcome {
        SelectOutcome::Found(row) => {
            let parsed = match parse_json(row.payload_text.as_str()) {
                Ok(payload) => Ok(payload),
                Err(error) => Err(error_text(&error)),
            };
            record_from_row(row, parsed)
        },
        SelectOutcome::Missing => Err(
            ServiceError { kind: ErrorKind::NotFound, detail: "Item not found".to_owned() },
        ),
        SelectOutcome::BackendError(message) => Err(
            ServiceError { kind: ErrorKind::StorageFailure, detail: message },
        ),
    }
}

/// The identifier a fetch asks for, or the failure where the request
/// named none.
pub fn fetch_target(id: Option<String>) -> (r: Result<String, ServiceError>)
    ensures
        match id {
            Some(text) => r == Ok::<String, ServiceError>(text),
            None => r matches Err(error) && error@ == (ErrorView {
                kind: ErrorKind::MalformedRequest,
                detail: missing_id_text(),
            }),
        },
{
    match id {
        Some(text) => Ok(text),
        None => Err(
            ServiceError {
                kind: ErrorKind::MalformedRequest,
                detail: "Missing id query parameter".to_owned(),
            },
        ),
    }
}

} // verus!
