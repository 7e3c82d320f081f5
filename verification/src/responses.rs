//! The response bodies: what the service answers for each outcome of a
//! data-access operation. A success is answered with the record or listing
//! written out, a failure with one fixed line per operation that does not
//! tell why it failed.

use vstd::prelude::*;
use crate::error::DbError;
use crate::models::{Book, User};
use crate::text::{
    book_text, books_text, push_book, push_books, push_user, push_users, user_text, users_text,
};

verus! {

/// The greeting served at the root path.
pub fn index() -> (body: &'static str)
    ensures
        body@ == "Hello world!"@,
{
    "Hello world!"
}

fn user_body(prefix: &str, failure: &str, result: &Result<User, DbError>) -> (body: String)
    ensures
        body@ == match result {
            Ok(user) => prefix@ + user_text(user@),
            Err(_) => failure@,
        },
{
    match result {
        Ok(user) => {
            let mut body = prefix.to_owned();
            push_user(&mut body, user);
            body
        },
        Err(_) => failure.to_owned(),
    }
}

fn book_body(prefix: &str, failure: &str, result: &Result<Book, DbError>) -> (body: String)
    ensures
        body@ == match result {
            Ok(book) => prefix@ + book_text(book@),
            Err(_) => failure@,
        },
{
    match result {
        Ok(book) => {
            let mut body = prefix.to_owned();
            push_book(&mut body, book);
            body
        },
        Err(_) => failure.to_owned(),
    }
}

/// The answer to a listing of users.
pub fn listed_users(result: &Result<Vec<User>, DbError>) -> (body: String)
    ensures
        body@ == match result {
            Ok(users) => users_text(users.deep_view()),
            Err(_) => "Error getting users"@,
        },
{
    match result {
        Ok(users) => {
            let mut body = String::new();
            push_users(&mut body, users);
            body
        },
        Err(_) => "Error getting users".to_owned(),
    }
}

/// The answer to a listing of books.
pub fn listed_books(result: &Result<Vec<Book>, DbError>) -> (body: String)
    ensures
        body@ == match result {
            Ok(books) => books_text(books.deep_view()),
            Err(_) => "Error getting books"@,
        },
{
    match result {
        Ok(books) => {
            let mut body = String::new();
            push_books(&mut body, books);
            body
        },
        Err(_) => "Error getting books".to_owned(),
    }
}

/// The answer to an insert of a user.
pub fn added_user(result: &Result<User, DbError>) -> (body: String)
    ensures
        body@ == match result {
            Ok(user) => "Added user: "@ + user_text(user@),
            Err(_) => "Error adding user"@,
        },
{
    user_body("Added user: ", "Error adding user", result)
}

/// The answer to a full replacement of a user.
pub fn replaced_user(result: &Result<User, DbError>) -> (body: String)
    ensures
        body@ == match result {
            Ok(user) => "Updated user: "@ + user_text(user@),
            Err(_) => "Error updating user"@,
        },
{
    user_body("Updated user: ", "Error updating user", result)
}

/// The answer to a partial update of a user.
pub fn updated_user(result: &Result<User, DbError>) -> (body: String)
    ensures
        body@ == match result {
            Ok(user) => "Updated user: "@ + user_text(user@),
            Err(_) => "Error updating user"@,
        },
{
    user_body("Updated user: ", "Error updating user", result)
}

/// The answer to a delete of a user.
pub fn deleted_user(result: &Result<User, DbError>) -> (body: String)
    ensures
        body@ == match result {
            Ok(user) => "Deleted user: "@ + user_text(user@),
            Err(_) => "Error deleting user"@,
        },
{
    user_body("Deleted user: ", "Error deleting user", result)
}

/// The answer to an insert of a book.
pub fn added_book(result: &Result<Book, DbError>) -> (body: String)
    ensures
        body@ == match result {
            Ok(book) => "Added book: "@ + book_text(book@),
            Err(_) => "Error adding book"@,
        },
{
    book_body("Added book: ", "Error adding book", result)
}

/// The answer to a full replacement of a book. The failure line
/// is the one of a user update; clients match on it as it is.
pub fn replaced_book(result: &Result<Book, DbError>) -> (body: String)
    ensures
        body@ == match result {
            Ok(book) => "Updated book: "@ + book_text(book@),
            Err(_) => "Error updating user"@,
        },
{
    book_body("Updated book: ", "Error updating user", result)
}

/// The answer to a partial update of a book.
pub fn updated_book(result: &Result<Book, DbError>) -> (body: String)
    ensures
        body@ == match result {
            Ok(book) => "Updated book: "@ + book_text(book@),
            Err(_) => "Error updating book"@,
        },
{
    book_body("Updated book: ", "Error updating book", result)
}

/// The answer to a delete of a book.
pub fn deleted_book(result: &Result<Book, DbError>) -> (body: String)
    ensures
        body@ == match result {
            Ok(book) => "Deleted book: "@ + book_text(book@),
            Err(_) => "Error deleting book"@,
        },
{
    book_body("Deleted book: ", "Error deleting book", result)
}

} // verus!
