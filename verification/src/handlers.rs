//! The request handlers: each carries out one data-access operation on the
//! store and answers with the response body for its outcome.

use vstd::prelude::*;
use crate::db::{
    add_book, add_user, delete_book, delete_user, replace_book, replace_user, update_book,
    update_user, Database,
};
use crate::history::{apply, Command};
use crate::models::{NewBook, NewUser, UpdatUser, UpdateBook};
use crate::relation::Record;
use crate::responses::{
    added_book, added_user, deleted_book, deleted_user, listed_books, listed_users, replaced_book,
    replaced_user, updated_book, updated_user,
};
use crate::text::{book_text, books_text, user_text, users_text};

verus! {

/// Answers with the listing of every user, in ascending key order.
pub fn get_users(db: &Database) -> (body: String)
    ensures
        body@ == users_text(db@.users.rows),
{
    listed_users(&crate::db::get_users(db))
}

/// Stores `new_user` and answers with the stored record, or with the failure
/// line when the table has used up its keys.
pub fn add_user_handler(db: &mut Database, new_user: NewUser) -> (body: String)
    ensures
        final(db)@.wf(),
        final(db)@.books == old(db)@.books,
        final(db)@.users == apply(old(db)@.users, Command::Insert(new_user@)),
        body@ == if old(db)@.users.can_insert() {
            "Added user: "@ + user_text(Record::of(old(db)@.users.next_id(), new_user@))
        } else {
            "Error adding user"@
        },
{
    added_user(&add_user(db, &new_user))
}

/// Overwrites both columns of the user with key `user_id` and answers with
/// the record as it then stands, or with the failure line when no user has
/// that key.
pub fn replace_user_handler(db: &mut Database, user_id: i32, user: NewUser) -> (body: String)
    ensures
        final(db)@.wf(),
        final(db)@.books == old(db)@.books,
        final(db)@.users == apply(old(db)@.users, Command::Replace(user_id as int, user@)),
        body@ == if old(db)@.users.has(user_id as int) {
            "Updated user: "@ + user_text(Record::of(user_id as int, user@))
        } else {
            "Error updating user"@
        },
{
    replaced_user(&replace_user(db, user_id, &user))
}

/// Overwrites the columns that `user` carries, for the user with key
/// `user_id`, and answers with the record as it then stands, or with the
/// failure line when no user has that key.
pub fn update_user_handler(db: &mut Database, user_id: i32, user: UpdatUser) -> (body: String)
    ensures
        final(db)@.wf(),
        final(db)@.books == old(db)@.books,
        final(db)@.users == apply(old(db)@.users, Command::Update(user_id as int, user@)),
        body@ == if old(db)@.users.has(user_id as int) {
            "Updated user: "@ + user_text(old(db)@.users.row(user_id as int).merged(user@))
        } else {
            "Error updating user"@
        },
{
    updated_user(&update_user(db, user_id, &user))
}

/// Removes the user with key `user_id` and answers with the record as it
/// was stored, or with the failure line when no user has that key.
pub fn delete_user_handler(db: &mut Database, user_id: i32) -> (body: String)
    ensures
        final(db)@.wf(),
        final(db)@.books == old(db)@.books,
        final(db)@.users == apply(old(db)@.users, Command::Delete(user_id as int)),
        body@ == if old(db)@.users.has(user_id as int) {
            "Deleted user: "@ + user_text(old(db)@.users.row(user_id as int))
        } else {
            "Error deleting user"@
        },
{
    deleted_user(&delete_user(db, user_id))
}

/// Answers with the listing of every book, in ascending key order.
pub fn get_books(db: &Database) -> (body: String)
    ensures
        body@ == books_text(db@.books.rows),
{
    listed_books(&crate::db::get_books(db))
}

/// Stores `new_book` and answers with the stored record, or with the failure
/// line when the table has used up its keys.
pub fn add_book_handler(db: &mut Database, new_book: NewBook) -> (body: String)
    ensures
        final(db)@.wf(),
        final(db)@.users == old(db)@.users,
        final(db)@.books == apply(old(db)@.books, Command::Insert(new_book@)),
        body@ == if old(db)@.books.can_insert() {
            "Added book: "@ + book_text(Record::of(old(db)@.books.next_id(), new_book@))
        } else {
            "Error adding book"@
        },
{
    added_book(&add_book(db, &new_book))
}

/// Overwrites both columns of the book with key `book_id` and answers with
/// the record as it then stands, or with the failure line when no book has
/// that key.
pub fn replace_book_handler(db: &mut Database, book_id: i32, book: NewBook) -> (body: String)
    ensures
        final(db)@.wf(),
        final(db)@.users == old(db)@.users,
        final(db)@.books == apply(old(db)@.books, Command::Replace(book_id as int, book@)),
        body@ == if old(db)@.books.has(book_id as int) {
            "Updated book: "@ + book_text(Record::of(book_id as int, book@))
        } else {
            "Error updating user"@
        },
{
    replaced_book(&replace_book(db, book_id, &book))
}

/// Overwrites the columns that `book` carries, for the book with key
/// `book_id`, and answers with the record as it then stands, or with the
/// failure line when no book has that key.
pub fn update_book_handler(db: &mut Database, book_id: i32, book: UpdateBook) -> (body: String)
    ensures
        final(db)@.wf(),
        final(db)@.users == old(db)@.users,
        final(db)@.books == apply(old(db)@.books, Command::Update(book_id as int, book@)),
        body@ == if old(db)@.books.has(book_id as int) {
            "Updated book: "@ + book_text(old(db)@.books.row(book_id as int).merged(book@))
        } else {
            "Error updating book"@
        },
{
    updated_book(&update_book(db, book_id, &book))
}

/// Removes the book with key `book_id` and answers with the record as it
/// was stored, or with the failure line when no book has that key.
pub fn delete_book_handler(db: &mut Database, book_id: i32) -> (body: String)
    ensures
        final(db)@.wf(),
        final(db)@.users == old(db)@.users,
        final(db)@.books == apply(old(db)@.books, Command::Delete(book_id as int)),
        body@ == if old(db)@.books.has(book_id as int) {
            "Deleted book: "@ + book_text(old(db)@.books.row(book_id as int))
        } else {
            "Error deleting book"@
        },
{
    deleted_book(&delete_book(db, book_id))
}

} // verus!
