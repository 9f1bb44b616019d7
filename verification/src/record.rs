//! The record and the values exchanged with the storage backend.

use vstd::prelude::*;

verus! {

/// A stored record as a client sees it.
#[derive(Debug, PartialEq)]
pub struct Record {
    pub id: String,
    pub kind: String,
    pub payload: serde_json::Value,
}

pub ghost struct RecordView {
    pub id: Seq<char>,
    pub kind: Seq<char>,
    pub payload: serde_json::Value,
}

impl View for Record {
    type V = RecordView;

    open spec fn view(&self) -> RecordView {
        RecordView { id: self.id@, kind: self.kind@, payload: self.payload }
    }
}

/// What a client sends to create a record. The identifier may be absent
/// or empty; both leave the choice to the service.
#[derive(Debug, PartialEq)]
pub struct CreateRequest {
    pub id: Option<String>,
    pub kind: String,
    pub payload: serde_json::Value,
}

pub ghost struct CreateRequestView {
    pub id: Option<Seq<char>>,
    pub kind: Seq<char>,
    pub payload: serde_json::Value,
}

impl View for CreateRequest {
    type V = CreateRequestView;

    open spec fn view(&self) -> CreateRequestView {
        CreateRequestView {
            id: match self.id {
                Some(text) => Some(text@),
                None => None,
            },
            kind: self.kind@,
            payload: self.payload,
        }
    }
}

/// A row as the backend holds it: the payload is text.
#[derive(Debug, Clone, PartialEq, Eq)]
pub struct StoredRow {
    pub id: String,
    pub kind: String,
    pub payload_text: String,
}

pub ghost struct RowView {
    pub id: Seq<char>,
    pub kind: Seq<char>,
    pub payload_text: Seq<char>,
}

impl View for StoredRow {
    type V = RowView;

    open spec fn view(&self) -> RowView {
        RowView { id: self.id@, kind: self.kind@, payload_text: self.payload_text@ }
    }
}

/// A create that waits for the backend: the record to answer with and the
/// row to insert for it.
#[derive(Debug, PartialEq)]
pub struct PendingCreate {
    pub record: Record,
    pub row: StoredRow,
}

/// The backend's answer to an insert.
#[derive(Debug, Clone, PartialEq, Eq)]
pub enum InsertOutcome {
    Inserted,
    UniqueViolation,
    BackendError(String),
}

/// The backend's answer to a select by identifier.
#[derive(Debug, Clone, PartialEq, Eq)]
pub enum SelectOutcome {
    Found(StoredRow),
    Missing,
    BackendError(String),
}

/// The kinds of failure a request can end in.
#[derive(Debug, Clone, Copy, PartialEq, Eq, Structural)]
pub enum ErrorKind {
    MalformedRequest,
    NotFound,
    Conflict,
    StorageFailure,
    CorruptPayload,
}

/// A failure with a short text for the response body.
#[derive(Debug, Clone, PartialEq, Eq)]
pub struct ServiceError {
    pub kind: ErrorKind,
    pub detail: String,
}

pub ghost enum InsertOutcomeView {
    Inserted,
    UniqueViolation,
    BackendError(Seq<char>),
}

impl View for InsertOutcome {
    type V = InsertOutcomeView;

    open spec fn view(&self) -> InsertOutcomeView {
        match *self {
            InsertOutcome::Inserted => InsertOutcomeView::Inserted,
            InsertOutcome::UniqueViolation => InsertOutcomeView::UniqueViolation,
            InsertOutcome::BackendError(message) => InsertOutcomeView::BackendError(message@),
        }
    }
}

pub ghost enum SelectOutcomeView {
    Found(RowView),
    Missing,
    BackendError(Seq<char>),
}

impl View for SelectOutcome {
    type V = SelectOutcomeView;

    open spec fn view(&self) -> SelectOutcomeView {
        match *self {
            SelectOutcome::Found(row) => SelectOutcomeView::Found(row@),
            SelectOutcome::Missing => SelectOutcomeView::Missing,
            SelectOutcome::BackendError(message) => SelectOutcomeView::BackendError(message@),
        }
    }
}

pub ghost struct ErrorView {
    pub kind: ErrorKind,
    pub detail: Seq<char>,
}

impl View for ServiceError {
    type V = ErrorView;

    open spec fn view(&self) -> ErrorView {
        ErrorView { kind: self.kind, detail: self.detail@ }
    }
}

/// A result as contracts speak of it.
pub open spec fn result_view(r: Result<Record, ServiceError>) -> Result<RecordView, ErrorView> {
    match r {
        Ok(record) => Ok(record@),
        Err(error) => Err(error@),
    }
}

} // verus!
