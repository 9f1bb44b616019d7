//! What the service relies on from its storage backend.
//!
//! The backend keeps rows by identifier. An insert of an identifier that is
//! present is refused and changes nothing; any other insert adds the row.
//! A select gives the row kept for an identifier, if there is one. Rows are
//! never changed or removed.

use vstd::prelude::*;
use crate::record::{InsertOutcomeView, RowView, SelectOutcomeView};

verus! {

/// The rows of a backend, by identifier.
pub type Rows = Map<Seq<char>, RowView>;

/// Every row is kept under its own identifier, and none under the empty
/// one.
pub open spec fn rows_wf(rows: Rows) -> bool {
    forall|id: Seq<char>| #[trigger]
        rows.contains_key(id) ==> rows[id].id == id && id.len() > 0
}

/// The backend's answer to an insert, where the backend itself works.
pub open spec fn insert_outcome(rows: Rows, row: RowView) -> InsertOutcomeView {
    if rows.contains_key(row.id) {
        InsertOutcomeView::UniqueViolation
    } else {
        InsertOutcomeView::Inserted
    }
}

/// The rows after an insert.
pub open spec fn after_insert(rows: Rows, row: RowView) -> Rows {
    if rows.contains_key(row.id) {
        rows
    } else {
        rows.insert(row.id, row)
    }
}

/// The rows after several inserts, the first of `added` first.
pub open spec fn after_inserts(rows: Rows, added: Seq<RowView>) -> Rows
    decreases added.len(),
{
    if added.len() == 0 {
        rows
    } else {
        after_insert(after_inserts(rows, added.drop_last()), added.last())
    }
}

/// The backend's answer to a select, where the backend itself works.
pub open spec fn select_outcome(rows: Rows, id: Seq<char>) -> SelectOutcomeView {
    if rows.contains_key(id) {
        SelectOutcomeView::Found(rows[id])
    } else {
        SelectOutcomeView::Missing
    }
}

/// An insert of a row with a non-empty identifier keeps the rows well
/// formed.
pub proof fn insert_keeps_wf(rows: Rows, row: RowView)
    requires
        rows_wf(rows),
        row.id.len() > 0,
    ensures
        rows_wf(after_insert(rows, row)),
{
}

/// An insert changes no row that is present and removes none.
pub proof fn insert_keeps_rows(rows: Rows, row: RowView, id: Seq<char>)
    requires
        rows.contains_key(id),
    ensures
        after_insert(rows, row).contains_key(id),
        after_insert(rows, row)[id] == rows[id],
{
}

/// No run of inserts changes or removes a row that is present.
pub proof fn inserts_keep_rows(rows: Rows, added: Seq<RowView>, id: Seq<char>)
    requires
        rows.contains_key(id),
    ensures
        after_inserts(rows, added).contains_key(id),
        after_inserts(rows, added)[id] == rows[id],
    decreases added.len(),
{
    if added.len() > 0 {
        inserts_keep_rows(rows, added.drop_last(), id);
        insert_keeps_rows(after_inserts(rows, added.drop_last()), added.last(), id);
    }
}

/// An identifier that is absent and that no inserted row carries is absent
/// afterwards.
pub proof fn inserts_add_only_their_ids(rows: Rows, added: Seq<RowView>, id: Seq<char>)
    requires
        !rows.contains_key(id),
        forall|i: int| 0 <= i < added.len() ==> (#[trigger] added[i]).id != id,
    ensures
        !after_inserts(rows, added).contains_key(id),
    decreases added.len(),
{
    if added.len() > 0 {
        inserts_add_only_their_ids(rows, added.drop_last(), id);
        assert(added.last() == added[added.len() - 1]);
    }
}

} // verus!
