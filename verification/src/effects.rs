//! What one operation changes in a table and what it leaves alone, stated
//! row by row: the row it addresses, every other row, and what a listing
//! shows afterwards.

use vstd::prelude::*;
use crate::relation::{lemma_position_unique, Fields, Patch, Record, TableState};

verus! {

/// Two tables agree on the row with key `id`: both hold it with the same
/// columns, or neither holds it.
pub open spec fn same_row(before: TableState, after: TableState, id: int) -> bool {
    &&& before.has(id) <==> after.has(id)
    &&& before.has(id) ==> before.row(id) == after.row(id)
}

/// Tables that hold the same keys at the same places find each key at the
/// same place.
proof fn lemma_same_places(before: TableState, after: TableState)
    requires
        before.wf(),
        after.wf(),
        before.rows.len() == after.rows.len(),
        forall|i: int| 0 <= i < before.rows.len() ==> before.rows[i].id == after.rows[i].id,
    ensures
        forall|id: int| #[trigger] before.has(id) <==> after.has(id),
        forall|id: int| #[trigger] before.has(id) ==> before.position(id) == after.position(id),
{
}

/// An insert gives the new row a key that no stored row has, stores exactly
/// the columns it was given under that key, makes the listing one row longer
/// and leaves every other row as it was.
pub proof fn lemma_insert_effect(state: TableState, fields: Fields)
    requires
        state.wf(),
        state.can_insert(),
    ensures
        !state.has(state.next_id()),
        state.insert(fields).has(state.next_id()),
        state.insert(fields).row(state.next_id()) == Record::of(state.next_id(), fields),
        state.insert(fields).rows.len() == state.rows.len() + 1,
        forall|other: int|
            other != state.next_id() ==> #[trigger] same_row(state, state.insert(fields), other),
{
    let after = state.insert(fields);
    lemma_position_unique(after, state.next_id(), state.rows.len() as int);
    assert forall|other: int| other != state.next_id() implies #[trigger] same_row(
        state,
        after,
        other,
    ) by {
        if state.has(other) {
            lemma_position_unique(after, other, state.position(other));
        }
    }
}

/// After a full replacement the row holds exactly the columns of the
/// payload under its old key; the listing is as long as before and every
/// other row is as it was.
pub proof fn lemma_replace_effect(state: TableState, id: int, fields: Fields)
    requires
        state.wf(),
        state.has(id),
    ensures
        state.replace(id, fields).has(id),
        state.replace(id, fields).row(id) == Record::of(id, fields),
        state.replace(id, fields).row(id).id == state.row(id).id,
        state.replace(id, fields).rows.len() == state.rows.len(),
        state.replace(id, fields).last_id == state.last_id,
        forall|other: int|
            other != id ==> #[trigger] same_row(state, state.replace(id, fields), other),
{
    lemma_same_places(state, state.replace(id, fields));
}

/// A partial update changes the columns it names and nothing else: a column
/// for which the payload carries a text holds that text afterwards, a column
/// for which it carries none is identical to what was stored, the key is
/// unchanged, the listing is as long as before and every other row is as it
/// was.
pub proof fn lemma_update_effect(state: TableState, id: int, patch: Patch)
    requires
        state.wf(),
        state.has(id),
    ensures
        state.update(id, patch).has(id),
        state.update(id, patch).row(id).id == id,
        patch.first is None ==> state.update(id, patch).row(id).first == state.row(id).first,
        patch.second is None ==> state.update(id, patch).row(id).second == state.row(id).second,
        patch.first matches Some(text) ==> state.update(id, patch).row(id).first == text,
        patch.second matches Some(text) ==> state.update(id, patch).row(id).second == text,
        state.update(id, patch).rows.len() == state.rows.len(),
        state.update(id, patch).last_id == state.last_id,
        forall|other: int|
            other != id ==> #[trigger] same_row(state, state.update(id, patch), other),
{
    lemma_same_places(state, state.update(id, patch));
}

/// A partial update that names no column changes nothing at all.
pub proof fn lemma_empty_update_is_identity(state: TableState, id: int)
    requires
        state.wf(),
        state.has(id),
    ensures
        state.update(id, (Patch { first: None, second: None })) == state,
{
    assert(state.update(id, (Patch { first: None, second: None })).rows =~= state.rows);
}

/// After a delete no row has the deleted key, so no listing shows it; the
/// listing is one row shorter and every other row is as it was.
pub proof fn lemma_delete_effect(state: TableState, id: int)
    requires
        state.wf(),
        state.has(id),
    ensures
        !state.delete(id).has(id),
        state.delete(id).rows.len() == state.rows.len() - 1,
        state.delete(id).last_id == state.last_id,
        forall|other: int| other != id ==> #[trigger] same_row(state, state.delete(id), other),
{
    let after = state.delete(id);
    let gone = state.position(id);
    assert forall|other: int| other != id implies #[trigger] same_row(state, after, other) by {
        if state.has(other) {
            let at = state.position(other);
            lemma_position_unique(after, other, if at < gone { at } else { at - 1 });
        }
    }
}

/// After everything was deleted the listing is empty and no key is stored;
/// the key counter stands where it stood.
pub proof fn lemma_clear_effect(state: TableState)
    requires
        state.wf(),
    ensures
        state.clear().wf(),
        state.clear().rows == Seq::<Record>::empty(),
        state.clear().last_id == state.last_id,
        forall|id: int| !#[trigger] state.clear().has(id),
{
}

} // verus!
