//! One table of the store: rows kept in key order, and the key counter.

use vstd::prelude::*;
use crate::error::DbError;
use crate::relation::{
    lemma_delete_wf, lemma_insert_wf, lemma_position_unique, lemma_replace_wf, lemma_update_wf,
    Fields, Patch, Record, TableState,
};

verus! {

/// A stored row as the program holds it.
#[derive(Debug, PartialEq, Eq)]
pub struct Row {
    pub id: i32,
    pub first: String,
    pub second: String,
}

impl View for Row {
    type V = Record;

    open spec fn view(&self) -> Record {
        Record { id: self.id as int, first: self.first@, second: self.second@ }
    }
}

impl DeepView for Row {
    type V = Record;

    open spec fn deep_view(&self) -> Record {
        self@
    }
}

impl Clone for Row {
    fn clone(&self) -> (copy: Self)
        ensures
            copy == *self,
    {
        Row { id: self.id, first: self.first.clone(), second: self.second.clone() }
    }
}

/// The partial update that carries `first` and `second`.
pub open spec fn patch_of(first: Option<String>, second: Option<String>) -> Patch {
    Patch { first: first.deep_view(), second: second.deep_view() }
}

/// A table: its rows in ascending key order and the last key it generated.
pub struct Table {
    rows: Vec<Row>,
    last_id: i32,
}

impl View for Table {
    type V = TableState;

    closed spec fn view(&self) -> TableState {
        TableState { rows: self.rows.deep_view(), last_id: self.last_id as int }
    }
}

impl Table {
    /// Holds of every table at all times.
    #[verifier::type_invariant]
    pub open spec fn valid(self) -> bool {
        self@.wf()
    }

    /// An empty table that has generated no key yet.
    pub fn new() -> (table: Table)
        ensures
            table@ == TableState::empty(),
    {
        let table = Table { rows: Vec::new(), last_id: 0 };
        assert(table@.rows =~= Seq::empty());
        table
    }

    /// An empty table whose key counter stands at `last_id`, as it would after
    /// rows up to that key were stored and removed again: the next insert
    /// assigns `last_id + 1`. `None` when `last_id` is negative.
    pub fn with_last_id(last_id: i32) -> (made: Option<Table>)
        ensures
            match made {
                Some(table) => last_id >= 0 && table@ == TableState::empty_after(last_id as int),
                None => last_id < 0,
            },
    {
        if last_id < 0 {
            None
        } else {
            let table = Table { rows: Vec::new(), last_id };
            assert(table@.rows =~= Seq::empty());
            Some(table)
        }
    }

    /// The number of rows stored.
    pub fn len(&self) -> (count: usize)
        ensures
            count == self@.rows.len(),
            self@.wf(),
    {
        proof {
            use_type_invariant(self);
        }
        self.rows.len()
    }

    /// The row at `index`, counting in key order from 0; `None` past the end.
    pub fn get(&self, index: usize) -> (found: Option<&Row>)
        ensures
            match found {
                Some(row) => index < self@.rows.len() && row@ == self@.rows[index as int],
                None => index >= self@.rows.len(),
            },
    {
        if index < self.rows.len() {
            Some(&self.rows[index])
        } else {
            None
        }
    }

    /// Where the row with key `id` stands, by bisection over the key order.
    pub fn find(&self, id: i32) -> (found: Option<usize>)
        ensures
            self@.wf(),
            match found {
                Some(index) => self@.has(id as int) && index == self@.position(id as int),
                None => !self@.has(id as int),
            },
    {
        proof {
            use_type_invariant(self);
        }
        let mut low: usize = 0;
        let mut high: usize = self.rows.len();
        while low < high
            invariant
                low <= high <= self.rows.len(),
                self@.wf(),
                forall|i: int| 0 <= i < low ==> (#[trigger] self@.rows[i]).id < id,
                forall|i: int| high <= i < self.rows.len() ==> (#[trigger] self@.rows[i]).id > id,
            decreases high - low,
        {
            let middle: usize = low + (high - low) / 2;
            let key: i32 = self.rows[middle].id;
            assert(self@.rows[middle as int].id == key);
            if key == id {
                proof {
                    lemma_position_unique(self@, id as int, middle as int);
                }
                return Some(middle);
            } else if key < id {
                low = middle + 1;
            } else {
                high = middle;
            }
        }
        None
    }

    /// Stores a new row under the next key and returns a copy of it. Fails
    /// with `StorageFailure`, changing nothing, once the keys are used up.
    pub fn insert(&mut self, first: String, second: String) -> (result: Result<Row, DbError>)
        ensures
            final(self)@.wf(),
            match result {
                Ok(row) => {
                    &&& old(self)@.can_insert()
                    &&& final(self)@ == old(self)@.insert(
                        (Fields { first: first@, second: second@ }),
                    )
                    &&& row@ == Record::of(
                        old(self)@.next_id(),
                        (Fields { first: first@, second: second@ }),
                    )
                },
                Err(error) => {
                    &&& !old(self)@.can_insert()
                    &&& error == DbError::StorageFailure
                    &&& final(self)@ == old(self)@
                },
            },
    {
        proof {
            use_type_invariant(&*self);
        }
        if self.last_id == i32::MAX {
            return Err(DbError::StorageFailure);
        }
        let id: i32 = self.last_id + 1;
        let stored = Row { id, first: first.clone(), second: second.clone() };
        let mut rows: Vec<Row> = Vec::new();
        std::mem::swap(&mut rows, &mut self.rows);
        rows.push(stored);
        proof {
            let fields = Fields { first: first@, second: second@ };
            lemma_insert_wf(old(self)@, fields);
            assert(rows.deep_view() =~= old(self)@.insert(fields).rows);
        }
        self.last_id = id;
        self.rows = rows;
        Ok(Row { id, first, second })
    }

    /// Overwrites both columns of the row with key `id` and returns a copy of
    /// the row as it then stands. Fails with `NotFound`, changing nothing,
    /// when no such row is stored.
    pub fn replace(&mut self, id: i32, first: String, second: String) -> (result: Result<
        Row,
        DbError,
    >)
        ensures
            final(self)@.wf(),
            match result {
                Ok(row) => {
                    &&& old(self)@.has(id as int)
                    &&& final(self)@ == old(self)@.replace(
                        id as int,
                        (Fields { first: first@, second: second@ }),
                    )
                    &&& row@ == Record::of(id as int, (Fields { first: first@, second: second@ }))
                },
                Err(error) => {
                    &&& !old(self)@.has(id as int)
                    &&& error == DbError::NotFound
                    &&& final(self)@ == old(self)@
                },
            },
    {
        proof {
            use_type_invariant(&*self);
        }
        match self.find(id) {
            None => Err(DbError::NotFound),
            Some(index) => {
                let stored = Row { id, first: first.clone(), second: second.clone() };
                let mut rows: Vec<Row> = Vec::new();
                std::mem::swap(&mut rows, &mut self.rows);
                rows.set(index, stored);
                proof {
                    let fields = Fields { first: first@, second: second@ };
                    lemma_replace_wf(old(self)@, id as int, fields);
                    assert(rows.deep_view() =~= old(self)@.replace(id as int, fields).rows);
                }
                self.rows = rows;
                Ok(Row { id, first, second })
            },
        }
    }

    /// Overwrites the columns of the row with key `id` for which a text is
    /// given, leaves the others as stored, and returns a copy of the row as
    /// it then stands. Fails with `NotFound`, changing nothing, when no such
    /// row is stored.
    pub fn update(&mut self, id: i32, first: Option<String>, second: Option<String>) -> (result:
        Result<Row, DbError>)
        ensures
            final(self)@.wf(),
            match result {
                Ok(row) => {
                    &&& old(self)@.has(id as int)
                    &&& final(self)@ == old(self)@.update(id as int, patch_of(first, second))
                    &&& row@ == old(self)@.row(id as int).merged(patch_of(first, second))
                },
                Err(error) => {
                    &&& !old(self)@.has(id as int)
                    &&& error == DbError::NotFound
                    &&& final(self)@ == old(self)@
                },
            },
    {
        proof {
            use_type_invariant(&*self);
        }
        match self.find(id) {
            None => Err(DbError::NotFound),
            Some(index) => {
                let new_first = match first {
                    Some(text) => text,
                    None => self.rows[index].first.clone(),
                };
                let new_second = match second {
                    Some(text) => text,
                    None => self.rows[index].second.clone(),
                };
                let stored = Row { id, first: new_first.clone(), second: new_second.clone() };
                let mut rows: Vec<Row> = Vec::new();
                std::mem::swap(&mut rows, &mut self.rows);
                rows.set(index, stored);
                proof {
                    let patch = patch_of(first, second);
                    lemma_update_wf(old(self)@, id as int, patch);
                    assert(rows.deep_view() =~= old(self)@.update(id as int, patch).rows);
                }
                self.rows = rows;
                Ok(Row { id, first: new_first, second: new_second })
            },
        }
    }

    /// Removes the row with key `id` and returns it as it was stored. Fails
    /// with `NotFound`, changing nothing, when no such row is stored.
    pub fn delete(&mut self, id: i32) -> (result: Result<Row, DbError>)
        ensures
            final(self)@.wf(),
            match result {
                Ok(row) => {
                    &&& old(self)@.has(id as int)
                    &&& final(self)@ == old(self)@.delete(id as int)
                    &&& row@ == old(self)@.row(id as int)
                },
                Err(error) => {
                    &&& !old(self)@.has(id as int)
                    &&& error == DbError::NotFound
                    &&& final(self)@ == old(self)@
                },
            },
    {
        proof {
            use_type_invariant(&*self);
        }
        match self.find(id) {
            None => Err(DbError::NotFound),
            Some(index) => {
                let mut rows: Vec<Row> = Vec::new();
                std::mem::swap(&mut rows, &mut self.rows);
                let removed = rows.remove(index);
                proof {
                    lemma_delete_wf(old(self)@, id as int);
                    assert(rows.deep_view() =~= old(self)@.delete(id as int).rows);
                }
                self.rows = rows;
                Ok(removed)
            },
        }
    }

    /// Removes every row. Keys already generated stay used.
    pub fn clear(&mut self)
        ensures
            final(self)@.wf(),
            final(self)@ == old(self)@.clear(),
    {
        proof {
            use_type_invariant(&*self);
        }
        let rows: Vec<Row> = Vec::new();
        proof {
            assert(rows.deep_view() =~= Seq::<Record>::empty());
        }
        self.rows = rows;
    }
}

} // verus!
