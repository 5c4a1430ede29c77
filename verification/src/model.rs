//! The mathematical model of the store: what the table holds, what each
//! operation does to it, and the laws the operations obey.

use vstd::prelude::*;

verus! {

/// One persisted row, without its id: title, description, progress.
pub type Row = (Seq<char>, Seq<char>, u8);

/// A store holding nothing, as a fresh one does.
pub open spec fn store_empty() -> Map<u32, Row> {
    Map::empty()
}

/// Whether some row of the store already carries the given title.
pub open spec fn title_taken(rows: Map<u32, Row>, title: Seq<char>) -> bool {
    exists|i: u32| #[trigger] rows.dom().contains(i) && rows[i].0 == title
}

/// Whether a row other than `id` carries the given title.
pub open spec fn title_taken_by_other(rows: Map<u32, Row>, id: u32, title: Seq<char>) -> bool {
    exists|j: u32| #[trigger] rows.dom().contains(j) && j != id && rows[j].0 == title
}

/// The store after a create: the new row stands under its freshly assigned id.
pub open spec fn store_create(rows: Map<u32, Row>, id: u32, row: Row) -> Map<u32, Row> {
    rows.insert(id, row)
}

/// What a lookup by id yields: the matching row, or nothing.
pub open spec fn store_lookup(rows: Map<u32, Row>, id: u32) -> Option<Row> {
    if rows.dom().contains(id) {
        Some(rows[id])
    } else {
        None
    }
}

/// The store after an update: a total overwrite of the matching row, and a
/// no-op when no row matches the id.
pub open spec fn store_update(rows: Map<u32, Row>, id: u32, row: Row) -> Map<u32, Row> {
    if rows.dom().contains(id) {
        rows.insert(id, row)
    } else {
        rows
    }
}

/// The store after a delete: the matching row is gone, and nothing happens
/// when no row matches the id.
pub open spec fn store_delete(rows: Map<u32, Row>, id: u32) -> Map<u32, Row> {
    rows.remove(id)
}

/// Round trip: a created row is read back unchanged under the id the store
/// assigned to it, whatever the store held before.
pub proof fn lemma_create_round_trip(rows: Map<u32, Row>, id: u32, row: Row)
    requires
        !rows.dom().contains(id),
        !title_taken(rows, row.0),
    ensures
        store_lookup(store_create(rows, id, row), id) == Some(row),
{
}

/// Update is a total overwrite: after an update of an existing id, a lookup of
/// that id yields exactly the new title, description and progress, regardless
/// of the prior values.
pub proof fn lemma_update_total_overwrite(rows: Map<u32, Row>, id: u32, row: Row)
    requires
        rows.dom().contains(id),
    ensures
        store_lookup(store_update(rows, id, row), id) == Some(row),
{
}

/// Delete is idempotent at the row level: deleting the same id twice leaves
/// the same store as deleting it once.
pub proof fn lemma_delete_idempotent(rows: Map<u32, Row>, id: u32)
    ensures
        store_delete(store_delete(rows, id), id) == store_delete(rows, id),
{
    assert(store_delete(store_delete(rows, id), id) =~= store_delete(rows, id));
}

/// A lookup of an id the store never assigned yields nothing.
pub proof fn lemma_lookup_missing(rows: Map<u32, Row>, id: u32)
    requires
        !rows.dom().contains(id),
    ensures
        store_lookup(rows, id) is None,
{
}

/// A lookup of a deleted id yields nothing.
pub proof fn lemma_lookup_after_delete(rows: Map<u32, Row>, id: u32)
    ensures
        store_lookup(store_delete(rows, id), id) is None,
{
}

} // verus!
