//! What holds of a table over any sequence of operations: keys are never
//! reused, the rows stay in key order, and the row count is what was put in
//! less what was taken out.

use vstd::prelude::*;
use crate::effects::{
    lemma_clear_effect, lemma_delete_effect, lemma_insert_effect, lemma_replace_effect,
    lemma_update_effect, same_row,
};
use crate::relation::{
    ascending, lemma_delete_wf, lemma_insert_wf, lemma_replace_wf, lemma_update_wf, Fields, Patch,
    TableState,
};

verus! {

/// One operation that changes a table.
pub enum Command {
    /// Store a new row.
    Insert(Fields),
    /// Overwrite both columns of the row with this key.
    Replace(int, Fields),
    /// Overwrite the given columns of the row with this key.
    Update(int, Patch),
    /// Remove the row with this key.
    Delete(int),
    /// Remove every row.
    DeleteAll,
}

/// Whether `command` succeeds on `state`: an insert needs a fresh key, an
/// operation by key needs the row, and removing everything always succeeds.
pub open spec fn accepts(state: TableState, command: Command) -> bool {
    match command {
        Command::Insert(_) => state.can_insert(),
        Command::Replace(id, _) => state.has(id),
        Command::Update(id, _) => state.has(id),
        Command::Delete(id) => state.has(id),
        Command::DeleteAll => true,
    }
}

/// The table after `command`. A command that fails changes nothing.
pub open spec fn apply(state: TableState, command: Command) -> TableState {
    if !accepts(state, command) {
        state
    } else {
        match command {
            Command::Insert(fields) => state.insert(fields),
            Command::Replace(id, fields) => state.replace(id, fields),
            Command::Update(id, patch) => state.update(id, patch),
            Command::Delete(id) => state.delete(id),
            Command::DeleteAll => state.clear(),
        }
    }
}

/// The table after `commands`, carried out in order from `start`.
pub open spec fn run(start: TableState, commands: Seq<Command>) -> TableState
    decreases commands.len(),
{
    if commands.len() == 0 {
        start
    } else {
        apply(run(start, commands.drop_last()), commands.last())
    }
}

/// The keys that the inserts among `commands` were given, in order.
pub open spec fn issued(start: TableState, commands: Seq<Command>) -> Seq<int>
    decreases commands.len(),
{
    if commands.len() == 0 {
        Seq::empty()
    } else {
        let before = run(start, commands.drop_last());
        let earlier = issued(start, commands.drop_last());
        if commands.last() is Insert && before.can_insert() {
            earlier.push(before.next_id())
        } else {
            earlier
        }
    }
}

/// How many rows `commands` stored.
pub open spec fn inserted(start: TableState, commands: Seq<Command>) -> int
    decreases commands.len(),
{
    if commands.len() == 0 {
        0
    } else {
        let before = run(start, commands.drop_last());
        let earlier = inserted(start, commands.drop_last());
        if commands.last() is Insert && before.can_insert() {
            earlier + 1
        } else {
            earlier
        }
    }
}

/// How many rows `commands` removed, one by one or all at once.
pub open spec fn removed(start: TableState, commands: Seq<Command>) -> int
    decreases commands.len(),
{
    if commands.len() == 0 {
        0
    } else {
        let before = run(start, commands.drop_last());
        let earlier = removed(start, commands.drop_last());
        match commands.last() {
            Command::Delete(id) => if before.has(id) {
                earlier + 1
            } else {
                earlier
            },
            Command::DeleteAll => earlier + before.rows.len(),
            _ => earlier,
        }
    }
}

/// One operation keeps a table well-formed and never lowers its key counter.
pub proof fn lemma_apply_wf(state: TableState, command: Command)
    requires
        state.wf(),
    ensures
        apply(state, command).wf(),
        state.last_id <= apply(state, command).last_id,
{
    if accepts(state, command) {
        match command {
            Command::Insert(fields) => lemma_insert_wf(state, fields),
            Command::Replace(id, fields) => lemma_replace_wf(state, id, fields),
            Command::Update(id, patch) => lemma_update_wf(state, id, patch),
            Command::Delete(id) => lemma_delete_wf(state, id),
            Command::DeleteAll => {},
        }
    }
}

/// Whatever operations are carried out, the table stays well-formed: its
/// rows, which are what a listing returns, stand in strictly ascending key
/// order, and its key counter never falls.
pub proof fn lemma_run_wf(start: TableState, commands: Seq<Command>)
    requires
        start.wf(),
    ensures
        run(start, commands).wf(),
        ascending(run(start, commands).rows),
        start.last_id <= run(start, commands).last_id,
    decreases commands.len(),
{
    if commands.len() > 0 {
        lemma_run_wf(start, commands.drop_last());
        lemma_apply_wf(run(start, commands.drop_last()), commands.last());
    }
}

/// No key is handed out twice. Over any sequence of operations, the keys
/// that the inserts were given rise strictly, so no two of them are equal;
/// each is greater than the key counter at the start, so none is the key of
/// a row that existed before; and none passes the counter at the end.
pub proof fn lemma_issued_keys_are_unique(start: TableState, commands: Seq<Command>)
    requires
        start.wf(),
    ensures
        ({
            let keys = issued(start, commands);
            &&& keys.len() == inserted(start, commands)
            &&& forall|i: int, j: int| 0 <= i < j < keys.len() ==> keys[i] < keys[j]
            &&& forall|i: int, j: int|
                0 <= i < keys.len() && 0 <= j < keys.len() && i != j ==> keys[i] != keys[j]
            &&& forall|i: int|
                0 <= i < keys.len() ==> start.last_id < #[trigger] keys[i] <= run(
                    start,
                    commands,
                ).last_id
            &&& forall|i: int| 0 <= i < keys.len() ==> !start.has(#[trigger] keys[i])
        }),
    decreases commands.len(),
{
    if commands.len() > 0 {
        let earlier = commands.drop_last();
        lemma_issued_keys_are_unique(start, earlier);
        lemma_run_wf(start, earlier);
        lemma_apply_wf(run(start, earlier), commands.last());
    }
}

/// Only an insert brings a key into a table: whatever operations were
/// carried out, the key of every row stored at the end is the key of a row
/// that stood in the table at the start or one that an insert was given
/// since. Replacing and updating never change a key.
pub proof fn lemma_stored_keys_come_from_inserts(
    start: TableState,
    commands: Seq<Command>,
    id: int,
)
    requires
        start.wf(),
        run(start, commands).has(id),
    ensures
        start.has(id) || issued(start, commands).contains(id),
    decreases commands.len(),
{
    if commands.len() > 0 {
        let earlier = commands.drop_last();
        let before = run(start, earlier);
        let after = run(start, commands);
        let keys = issued(start, earlier);
        lemma_run_wf(start, earlier);
        if accepts(before, commands.last()) {
            match commands.last() {
                Command::Insert(fields) => {
                    lemma_insert_effect(before, fields);
                    if id == before.next_id() {
                        assert(keys.push(id).last() == id);
                    } else {
                        assert(same_row(before, after, id));
                        lemma_stored_keys_come_from_inserts(start, earlier, id);
                        if keys.contains(id) {
                            let at = choose|i: int| 0 <= i < keys.len() && keys[i] == id;
                            assert(keys.push(before.next_id())[at] == id);
                        }
                    }
                },
                Command::Replace(target, fields) => {
                    lemma_replace_effect(before, target, fields);
                    if id != target {
                        assert(same_row(before, after, id));
                    }
                    lemma_stored_keys_come_from_inserts(start, earlier, id);
                },
                Command::Update(target, patch) => {
                    lemma_update_effect(before, target, patch);
                    if id != target {
                        assert(same_row(before, after, id));
                    }
                    lemma_stored_keys_come_from_inserts(start, earlier, id);
                },
                Command::Delete(target) => {
                    lemma_delete_effect(before, target);
                    assert(same_row(before, after, id));
                    lemma_stored_keys_come_from_inserts(start, earlier, id);
                },
                Command::DeleteAll => {
                    lemma_clear_effect(before);
                },
            }
        } else {
            lemma_stored_keys_come_from_inserts(start, earlier, id);
        }
    }
}

/// The number of rows a table holds is the number it started with, plus the
/// rows stored since, less the rows removed since.
pub proof fn lemma_row_count(start: TableState, commands: Seq<Command>)
    requires
        start.wf(),
    ensures
        run(start, commands).rows.len() == start.rows.len() + inserted(start, commands) - removed(
            start,
            commands,
        ),
    decreases commands.len(),
{
    if commands.len() > 0 {
        lemma_row_count(start, commands.drop_last());
        lemma_run_wf(start, commands.drop_last());
    }
}

/// A listing of a table that started empty is in ascending key order and as
/// long as the count of rows stored less the count of rows removed.
pub proof fn lemma_listing_of_a_session(commands: Seq<Command>)
    ensures
        ascending(run(TableState::empty(), commands).rows),
        run(TableState::empty(), commands).rows.len() == inserted(TableState::empty(), commands)
            - removed(TableState::empty(), commands),
{
    lemma_run_wf(TableState::empty(), commands);
    lemma_row_count(TableState::empty(), commands);
}

} // verus!
