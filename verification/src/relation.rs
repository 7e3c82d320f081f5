//! The mathematical model of one table: what it holds, and what each
//! data-access operation does to it.
//!
//! Users and books have the same shape (a generated integer key and two text
//! columns), so one model serves both. For a user the first column is the
//! name and the second the email; for a book they are title and author.

use vstd::prelude::*;

verus! {

/// A stored row: the key the table generated and the two text columns.
pub struct Record {
    pub id: int,
    pub first: Seq<char>,
    pub second: Seq<char>,
}

/// The values of an insert or of a full replacement: both columns.
pub struct Fields {
    pub first: Seq<char>,
    pub second: Seq<char>,
}

/// The values of a partial update: `None` leaves the column as it is.
pub struct Patch {
    pub first: Option<Seq<char>>,
    pub second: Option<Seq<char>>,
}

/// The largest key a table can generate.
pub open spec fn max_id() -> int {
    i32::MAX as int
}

impl Record {
    /// The row that `fields` makes under key `id`.
    pub open spec fn of(id: int, fields: Fields) -> Record {
        Record { id, first: fields.first, second: fields.second }
    }

    /// This row after a partial update: a column that `patch` names takes the
    /// new value, any other keeps the stored one. The key never changes.
    pub open spec fn merged(self, patch: Patch) -> Record {
        Record {
            id: self.id,
            first: match patch.first {
                Some(text) => text,
                None => self.first,
            },
            second: match patch.second {
                Some(text) => text,
                None => self.second,
            },
        }
    }
}

/// Keys rise strictly from one row to the next.
pub open spec fn ascending(rows: Seq<Record>) -> bool {
    forall|i: int, j: int| 0 <= i < j < rows.len() ==> rows[i].id < rows[j].id
}

/// Some row of `rows` has key `id`.
pub open spec fn has_id(rows: Seq<Record>, id: int) -> bool {
    exists|i: int| 0 <= i < rows.len() && #[trigger] rows[i].id == id
}

/// The state of one table: its rows in key order, and the last key it
/// generated (0 before the first insert). Deleting rows never lowers
/// `last_id`, so a key is never handed out twice.
pub struct TableState {
    pub rows: Seq<Record>,
    pub last_id: int,
}

impl TableState {
    /// A new table: no rows, no key generated yet.
    pub open spec fn empty() -> TableState {
        TableState { rows: Seq::empty(), last_id: 0 }
    }

    /// A table without rows that has generated the keys up to `last_id`.
    pub open spec fn empty_after(last_id: int) -> TableState {
        TableState { rows: Seq::empty(), last_id }
    }

    /// What holds of every table: rows are in strictly ascending key order
    /// (so no key occurs twice), and every key lies between 1 and the last
    /// one generated, which itself never passes `max_id()`.
    pub open spec fn wf(self) -> bool {
        &&& 0 <= self.last_id <= max_id()
        &&& ascending(self.rows)
        &&& forall|i: int|
            0 <= i < self.rows.len() ==> 1 <= (#[trigger] self.rows[i]).id <= self.last_id
    }

    /// A row with key `id` is stored.
    pub open spec fn has(self, id: int) -> bool {
        has_id(self.rows, id)
    }

    /// Where the row with key `id` stands. Meaningful when `self.has(id)`.
    pub open spec fn position(self, id: int) -> int {
        choose|i: int| 0 <= i < self.rows.len() && #[trigger] self.rows[i].id == id
    }

    /// The stored row with key `id`. Meaningful when `self.has(id)`.
    pub open spec fn row(self, id: int) -> Record {
        self.rows[self.position(id)]
    }

    /// An insert succeeds as long as a fresh key is left.
    pub open spec fn can_insert(self) -> bool {
        self.last_id < max_id()
    }

    /// The key the next insert assigns.
    pub open spec fn next_id(self) -> int {
        self.last_id + 1
    }

    /// After inserting `fields`: the new row stands last, under the next key.
    pub open spec fn insert(self, fields: Fields) -> TableState {
        TableState {
            rows: self.rows.push(Record::of(self.next_id(), fields)),
            last_id: self.next_id(),
        }
    }

    /// After replacing both columns of row `id`. Meaningful when `self.has(id)`.
    pub open spec fn replace(self, id: int, fields: Fields) -> TableState {
        TableState {
            rows: self.rows.update(self.position(id), Record::of(id, fields)),
            last_id: self.last_id,
        }
    }

    /// After a partial update of row `id`. Meaningful when `self.has(id)`.
    pub open spec fn update(self, id: int, patch: Patch) -> TableState {
        TableState {
            rows: self.rows.update(self.position(id), self.row(id).merged(patch)),
            last_id: self.last_id,
        }
    }

    /// After deleting row `id`. Meaningful when `self.has(id)`.
    pub open spec fn delete(self, id: int) -> TableState {
        TableState { rows: self.rows.remove(self.position(id)), last_id: self.last_id }
    }

    /// After deleting every row. The key counter is not reset.
    pub open spec fn clear(self) -> TableState {
        TableState { rows: Seq::empty(), last_id: self.last_id }
    }
}

/// In a well-formed table a key stands at one position only.
pub proof fn lemma_position_unique(state: TableState, id: int, index: int)
    requires
        state.wf(),
        0 <= index < state.rows.len(),
        state.rows[index].id == id,
    ensures
        state.has(id),
        state.position(id) == index,
        state.row(id) == state.rows[index],
{
}

/// In a well-formed table no two rows have the same key.
pub proof fn lemma_keys_are_distinct(state: TableState)
    requires
        state.wf(),
    ensures
        forall|i: int, j: int|
            0 <= i < state.rows.len() && 0 <= j < state.rows.len() && i != j ==> state.rows[i].id
                != state.rows[j].id,
{
}

/// An insert takes a well-formed table to a well-formed table.
pub proof fn lemma_insert_wf(state: TableState, fields: Fields)
    requires
        state.wf(),
        state.can_insert(),
    ensures
        state.insert(fields).wf(),
{
}

/// A full replacement takes a well-formed table to a well-formed table.
pub proof fn lemma_replace_wf(state: TableState, id: int, fields: Fields)
    requires
        state.wf(),
        state.has(id),
    ensures
        state.replace(id, fields).wf(),
{
}

/// A partial update takes a well-formed table to a well-formed table.
pub proof fn lemma_update_wf(state: TableState, id: int, patch: Patch)
    requires
        state.wf(),
        state.has(id),
    ensures
        state.update(id, patch).wf(),
{
}

/// A delete takes a well-formed table to a well-formed table.
pub proof fn lemma_delete_wf(state: TableState, id: int)
    requires
        state.wf(),
        state.has(id),
    ensures
        state.delete(id).wf(),
{
}

} // verus!
