//! What holds of creates and fetches against a working backend.
//!
//! Each statement is over the answers that the service functions promise
//! (`prepares`, `create_answer`, `fetch_answer`) and the backend's rows.

use vstd::prelude::*;
use crate::codec::{json_parsed, json_text};
use crate::identifier::{is_canonical_identifier, lacks_identifier};
use crate::record::{ErrorKind, ErrorView, RecordView, RowView, SelectOutcomeView};
use crate::service::{
    conflict_text, create_answer, fetch_answer, not_found_text, parsed_text, prepares, row_answer,
};
use crate::store::{
    Rows, after_insert, after_inserts, insert_keeps_wf, insert_outcome,
    inserts_add_only_their_ids, inserts_keep_rows, rows_wf, select_outcome,
};
use crate::surface::status_of_result;

verus! {

/// A create that names no identifier, or an empty one, and whose row the
/// backend takes, answers with a record whose identifier is canonical.
pub proof fn assigned_identifier_is_canonical(
    rows: Rows,
    supplied: Option<Seq<char>>,
    kind: Seq<char>,
    payload: serde_json::Value,
    record: RecordView,
    row: RowView,
)
    requires
        lacks_identifier(supplied),
        prepares(supplied, kind, payload, record, row),
        !rows.contains_key(record.id),
    ensures
        create_answer(record, insert_outcome(rows, row)) == Ok::<RecordView, ErrorView>(record),
        is_canonical_identifier(record.id),
        record.id.len() == 36,
{
}

/// A create succeeds exactly where its identifier is not in use, and the
/// identifier is in use afterwards: no two records share an identifier.
pub proof fn created_identifier_is_new(
    rows: Rows,
    supplied: Option<Seq<char>>,
    kind: Seq<char>,
    payload: serde_json::Value,
    record: RecordView,
    row: RowView,
)
    requires
        prepares(supplied, kind, payload, record, row),
    ensures
        create_answer(record, insert_outcome(rows, row)) is Ok <==> !rows.contains_key(record.id),
        after_insert(rows, row).contains_key(record.id),
{
}

/// A create with a non-empty identifier that is not in use succeeds, the
/// record has that identifier, and the row is kept under it.
pub proof fn client_identifier_is_honored(
    rows: Rows,
    id: Seq<char>,
    kind: Seq<char>,
    payload: serde_json::Value,
    record: RecordView,
    row: RowView,
)
    requires
        id.len() > 0,
        !rows.contains_key(id),
        prepares(Some(id), kind, payload, record, row),
    ensures
        record.id == id,
        create_answer(record, insert_outcome(rows, row)) == Ok::<RecordView, ErrorView>(record),
        status_of_result(create_answer(record, insert_outcome(rows, row))) == 200,
        after_insert(rows, row).contains_key(id),
        after_insert(rows, row)[id] == row,
{
}

/// A create with a non-empty identifier that is in use is a conflict,
/// answered with 409, and leaves every row as it was.
pub proof fn used_identifier_conflicts(
    rows: Rows,
    id: Seq<char>,
    kind: Seq<char>,
    payload: serde_json::Value,
    record: RecordView,
    row: RowView,
)
    requires
        id.len() > 0,
        rows.contains_key(id),
        prepares(Some(id), kind, payload, record, row),
    ensures
        create_answer(record, insert_outcome(rows, row)) == Err::<RecordView, ErrorView>(
            ErrorView { kind: ErrorKind::Conflict, detail: conflict_text() },
        ),
        status_of_result(create_answer(record, insert_outcome(rows, row))) == 409,
        after_insert(rows, row) == rows,
{
}

/// Of two creates with the same non-empty identifier, the first on rows
/// that lack it, the first succeeds, the second is a conflict, and the
/// first one's row is the one kept.
pub proof fn second_create_conflicts(
    rows: Rows,
    id: Seq<char>,
    kind1: Seq<char>,
    payload1: serde_json::Value,
    record1: RecordView,
    row1: RowView,
    kind2: Seq<char>,
    payload2: serde_json::Value,
    record2: RecordView,
    row2: RowView,
)
    requires
        id.len() > 0,
        !rows.contains_key(id),
        prepares(Some(id), kind1, payload1, record1, row1),
        prepares(Some(id), kind2, payload2, record2, row2),
    ensures
        create_answer(record1, insert_outcome(rows, row1)) == Ok::<RecordView, ErrorView>(record1),
        status_of_result(create_answer(record2, insert_outcome(after_insert(rows, row1), row2)))
            == 409,
        after_insert(after_insert(rows, row1), row2) == after_insert(rows, row1),
        select_outcome(after_insert(after_insert(rows, row1), row2), id)
            == SelectOutcomeView::Found(row1),
{
    used_identifier_conflicts(after_insert(rows, row1), id, kind2, payload2, record2, row2);
}

/// A fetch of the identifier that a successful create answered with finds
/// the row of that create. Its answer has the identifier and the kind of
/// the created record, and for payload what the codec reads from the text
/// that it wrote for the created one; where the codec does not accept
/// that text, the answer is a corrupt payload.
pub proof fn fetch_after_create(
    rows: Rows,
    supplied: Option<Seq<char>>,
    kind: Seq<char>,
    payload: serde_json::Value,
    record: RecordView,
    row: RowView,
)
    requires
        prepares(supplied, kind, payload, record, row),
        !rows.contains_key(record.id),
    ensures
        create_answer(record, insert_outcome(rows, row)) == Ok::<RecordView, ErrorView>(record),
        json_text(payload) == Ok::<Seq<char>, serde_json::Error>(row.payload_text),
        fetch_answer(select_outcome(after_insert(rows, row), record.id)) == row_answer(
            row,
            parsed_text(row.payload_text),
        ),
        row.id == record.id,
        row.kind == kind,
{
}

/// For a payload that the codec reads back as it wrote it, a fetch after a
/// successful create answers with the created record, payload included,
/// and with status 200.
pub proof fn fetch_returns_created_record(
    rows: Rows,
    supplied: Option<Seq<char>>,
    kind: Seq<char>,
    payload: serde_json::Value,
    record: RecordView,
    row: RowView,
)
    requires
        prepares(supplied, kind, payload, record, row),
        !rows.contains_key(record.id),
        json_text(payload) matches Ok(text) && json_parsed(text) == Ok::<
            serde_json::Value,
            serde_json::Error,
        >(payload),
    ensures
        fetch_answer(select_outcome(after_insert(rows, row), record.id)) == Ok::<
            RecordView,
            ErrorView,
        >(record),
        status_of_result(fetch_answer(select_outcome(after_insert(rows, row), record.id))) == 200,
{
    fetch_after_create(rows, supplied, kind, payload, record, row);
}

/// A fetch of a present identifier answers the same before and after any
/// run of inserts: nothing that the service does changes a stored record.
pub proof fn fetch_is_stable(rows: Rows, added: Seq<RowView>, id: Seq<char>)
    requires
        rows.contains_key(id),
    ensures
        select_outcome(after_inserts(rows, added), id) == select_outcome(rows, id),
        fetch_answer(select_outcome(after_inserts(rows, added), id)) == fetch_answer(
            select_outcome(rows, id),
        ),
{
    inserts_keep_rows(rows, added, id);
}

/// A fetch of an identifier that is not present is answered with
/// not-found and status 404.
pub proof fn absent_identifier_is_not_found(rows: Rows, id: Seq<char>)
    requires
        !rows.contains_key(id),
    ensures
        fetch_answer(select_outcome(rows, id)) == Err::<RecordView, ErrorView>(
            ErrorView { kind: ErrorKind::NotFound, detail: not_found_text() },
        ),
        status_of_result(fetch_answer(select_outcome(rows, id))) == 404,
{
}

/// A fetch of an identifier that no insert ever carried, on rows that
/// began empty, is answered with not-found and status 404.
pub proof fn never_created_is_not_found(added: Seq<RowView>, id: Seq<char>)
    requires
        forall|i: int| 0 <= i < added.len() ==> (#[trigger] added[i]).id != id,
    ensures
        fetch_answer(select_outcome(after_inserts(Map::empty(), added), id)) == Err::<
            RecordView,
            ErrorView,
        >(ErrorView { kind: ErrorKind::NotFound, detail: not_found_text() }),
        status_of_result(fetch_answer(select_outcome(after_inserts(Map::empty(), added), id)))
            == 404,
{
    inserts_add_only_their_ids(Map::empty(), added, id);
}

/// Creates keep the rows well formed: every row under its own identifier,
/// none under the empty one.
pub proof fn create_keeps_rows_well_formed(
    rows: Rows,
    supplied: Option<Seq<char>>,
    kind: Seq<char>,
    payload: serde_json::Value,
    record: RecordView,
    row: RowView,
)
    requires
        rows_wf(rows),
        prepares(supplied, kind, payload, record, row),
    ensures
        rows_wf(after_insert(rows, row)),
{
    insert_keeps_wf(rows, row);
}

/// On well-formed rows a fetch of the empty identifier is answered with
/// not-found: no record is ever kept under it.
pub proof fn empty_identifier_is_not_found(rows: Rows)
    requires
        rows_wf(rows),
    ensures
        fetch_answer(select_outcome(rows, Seq::<char>::empty())) == Err::<RecordView, ErrorView>(
            ErrorView { kind: ErrorKind::NotFound, detail: not_found_text() },
        ),
{
}

} // verus!
