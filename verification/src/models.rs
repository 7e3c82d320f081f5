//! The record types: a full record, an insert payload and a partial-update
//! payload for each of the two entities.

use vstd::prelude::*;
use crate::relation::{Fields, Patch, Record};

verus! {

/// A stored user: the generated key, the name and the email.
#[derive(Debug, PartialEq, Eq)]
pub struct User {
    pub id: i32,
    pub name: String,
    pub email: String,
}

/// What creating a user, or replacing one in full, takes: both columns.
#[derive(Debug, PartialEq, Eq)]
pub struct NewUser {
    pub name: String,
    pub email: String,
}

/// What a partial update of a user takes: a column left `None` is not touched.
#[derive(Debug, PartialEq, Eq)]
pub struct UpdatUser {
    pub name: Option<String>,
    pub email: Option<String>,
}

/// A stored book: the generated key, the title and the author.
#[derive(Debug, PartialEq, Eq)]
pub struct Book {
    pub id: i32,
    pub title: String,
    pub author: String,
}

/// What creating a book, or replacing one in full, takes: both columns.
#[derive(Debug, PartialEq, Eq)]
pub struct NewBook {
    pub title: String,
    pub author: String,
}

/// What a partial update of a book takes: a column left `None` is not touched.
#[derive(Debug, PartialEq, Eq)]
pub struct UpdateBook {
    pub title: Option<String>,
    pub author: Option<String>,
}

impl View for User {
    type V = Record;

    open spec fn view(&self) -> Record {
        Record { id: self.id as int, first: self.name@, second: self.email@ }
    }
}

impl DeepView for User {
    type V = Record;

    open spec fn deep_view(&self) -> Record {
        self@
    }
}

impl View for NewUser {
    type V = Fields;

    open spec fn view(&self) -> Fields {
        Fields { first: self.name@, second: self.email@ }
    }
}

impl View for UpdatUser {
    type V = Patch;

    open spec fn view(&self) -> Patch {
        Patch { first: self.name.deep_view(), second: self.email.deep_view() }
    }
}

impl View for Book {
    type V = Record;

    open spec fn view(&self) -> Record {
        Record { id: self.id as int, first: self.title@, second: self.author@ }
    }
}

impl DeepView for Book {
    type V = Record;

    open spec fn deep_view(&self) -> Record {
        self@
    }
}

impl View for NewBook {
    type V = Fields;

    open spec fn view(&self) -> Fields {
        Fields { first: self.title@, second: self.author@ }
    }
}

impl View for UpdateBook {
    type V = Patch;

    open spec fn view(&self) -> Patch {
        Patch { first: self.title.deep_view(), second: self.author.deep_view() }
    }
}

impl Clone for User {
    fn clone(&self) -> (copy: Self)
        ensures
            copy == *self,
    {
        User { id: self.id, name: self.name.clone(), email: self.email.clone() }
    }
}

impl Clone for NewUser {
    fn clone(&self) -> (copy: Self)
        ensures
            copy == *self,
    {
        NewUser { name: self.name.clone(), email: self.email.clone() }
    }
}

impl Clone for UpdatUser {
    fn clone(&self) -> (copy: Self)
        ensures
            copy == *self,
    {
        UpdatUser { name: self.name.clone(), email: self.email.clone() }
    }
}

impl Clone for Book {
    fn clone(&self) -> (copy: Self)
        ensures
            copy == *self,
    {
        Book { id: self.id, title: self.title.clone(), author: self.author.clone() }
    }
}

impl Clone for NewBook {
    fn clone(&self) -> (copy: Self)
        ensures
            copy == *self,
    {
        NewBook { title: self.title.clone(), author: self.author.clone() }
    }
}

impl Clone for UpdateBook {
    fn clone(&self) -> (copy: Self)
        ensures
            copy == *self,
    {
        UpdateBook { title: self.title.clone(), author: self.author.clone() }
    }
}

} // verus!
