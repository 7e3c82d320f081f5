//! The data-access layer: the operations on users and on books, each taking
//! the store it works on as an explicit handle.

use vstd::prelude::*;
use crate::error::DbError;
use crate::models::{Book, NewBook, NewUser, UpdatUser, UpdateBook, User};
use crate::relation::{ascending, Record, TableState};
use crate::table::{Row, Table};

verus! {

/// The state of the whole store: one table per entity.
pub struct DatabaseState {
    pub users: TableState,
    pub books: TableState,
}

impl DatabaseState {
    /// A new store: both tables empty.
    pub open spec fn empty() -> DatabaseState {
        DatabaseState { users: TableState::empty(), books: TableState::empty() }
    }

    /// Both tables are well-formed.
    pub open spec fn wf(self) -> bool {
        self.users.wf() && self.books.wf()
    }
}

/// The store that the data-access operations work on.
pub struct Database {
    users: Table,
    books: Table,
}

impl View for Database {
    type V = DatabaseState;

    closed spec fn view(&self) -> DatabaseState {
        DatabaseState { users: self.users@, books: self.books@ }
    }
}

impl Database {
    /// A store with no user and no book.
    pub fn new() -> (db: Database)
        ensures
            db@ == DatabaseState::empty(),
    {
        Database { users: Table::new(), books: Table::new() }
    }

    /// A store with no user and no book whose tables have generated the keys
    /// up to `users_last_id` and `books_last_id`. `None` when either is
    /// negative.
    pub fn with_last_ids(users_last_id: i32, books_last_id: i32) -> (made: Option<Database>)
        ensures
            match made {
                Some(db) => {
                    &&& users_last_id >= 0
                    &&& books_last_id >= 0
                    &&& db@.users == TableState::empty_after(users_last_id as int)
                    &&& db@.books == TableState::empty_after(books_last_id as int)
                },
                None => users_last_id < 0 || books_last_id < 0,
            },
    {
        match (Table::with_last_id(users_last_id), Table::with_last_id(books_last_id)) {
            (Some(users), Some(books)) => Some(Database { users, books }),
            _ => None,
        }
    }
}

fn user_of(row: Row) -> (user: User)
    ensures
        user@ == row@,
{
    User { id: row.id, name: row.first, email: row.second }
}

fn book_of(row: Row) -> (book: Book)
    ensures
        book@ == row@,
{
    Book { id: row.id, title: row.first, author: row.second }
}

/// Lists every user, in ascending key order. Never fails on this store.
pub fn get_users(db: &Database) -> (result: Result<Vec<User>, DbError>)
    ensures
        db@.wf(),
        result matches Ok(users) && users.deep_view() == db@.users.rows && ascending(
            users.deep_view(),
        ),
{
    proof {
        use_type_invariant(&db.users);
        use_type_invariant(&db.books);
    }
    let count = db.users.len();
    let mut users: Vec<User> = Vec::new();
    let mut index: usize = 0;
    while index < count
        invariant
            index <= count == db.users@.rows.len(),
            users.len() == index,
            forall|i: int| 0 <= i < index ==> (#[trigger] users[i])@ == db.users@.rows[i],
        decreases count - index,
    {
        if let Some(row) = db.users.get(index) {
            users.push(user_of(row.clone()));
        }
        index += 1;
    }
    Ok(users)
}

/// Stores a new user under the next key of the users table and returns the
/// stored record. Fails with `StorageFailure`, changing nothing, once the
/// table has used up its keys.
pub fn add_user(db: &mut Database, new_user: &NewUser) -> (result: Result<User, DbError>)
    ensures
        final(db)@.wf(),
        final(db)@.books == old(db)@.books,
        match result {
            Ok(user) => {
                &&& old(db)@.users.can_insert()
                &&& final(db)@.users == old(db)@.users.insert(new_user@)
                &&& user@ == Record::of(old(db)@.users.next_id(), new_user@)
            },
            Err(error) => {
                &&& !old(db)@.users.can_insert()
                &&& error == DbError::StorageFailure
                &&& final(db)@ == old(db)@
            },
        },
{
    proof {
        use_type_invariant(&db.books);
    }
    match db.users.insert(new_user.name.clone(), new_user.email.clone()) {
        Ok(row) => Ok(user_of(row)),
        Err(error) => Err(error),
    }
}

/// Overwrites name and email of the user with key `user_id` and returns the
/// record as it then stands. Fails with `NotFound`, changing nothing, when
/// no user has that key.
pub fn replace_user(db: &mut Database, user_id: i32, new_user: &NewUser) -> (result: Result<
    User,
    DbError,
>)
    ensures
        final(db)@.wf(),
        final(db)@.books == old(db)@.books,
        match result {
            Ok(user) => {
                &&& old(db)@.users.has(user_id as int)
                &&& final(db)@.users == old(db)@.users.replace(user_id as int, new_user@)
                &&& user@ == Record::of(user_id as int, new_user@)
            },
            Err(error) => {
                &&& !old(db)@.users.has(user_id as int)
                &&& error == DbError::NotFound
                &&& final(db)@ == old(db)@
            },
        },
{
    proof {
        use_type_invariant(&db.books);
    }
    match db.users.replace(user_id, new_user.name.clone(), new_user.email.clone()) {
        Ok(row) => Ok(user_of(row)),
        Err(error) => Err(error),
    }
}

/// Overwrites those of name and email that `new_user` carries, for the user
/// with key `new_user_id`, and returns the record as it then stands. Fails
/// with `NotFound`, changing nothing, when no user has that key.
pub fn update_user(db: &mut Database, new_user_id: i32, new_user: &UpdatUser) -> (result: Result<
    User,
    DbError,
>)
    ensures
        final(db)@.wf(),
        final(db)@.books == old(db)@.books,
        match result {
            Ok(updated) => {
                &&& old(db)@.users.has(new_user_id as int)
                &&& final(db)@.users == old(db)@.users.update(new_user_id as int, new_user@)
                &&& updated@ == old(db)@.users.row(new_user_id as int).merged(new_user@)
            },
            Err(error) => {
                &&& !old(db)@.users.has(new_user_id as int)
                &&& error == DbError::NotFound
                &&& final(db)@ == old(db)@
            },
        },
{
    proof {
        use_type_invariant(&db.books);
    }
    match db.users.update(new_user_id, new_user.name.clone(), new_user.email.clone()) {
        Ok(row) => Ok(user_of(row)),
        Err(error) => Err(error),
    }
}

/// Removes the user with key `id` and returns the record as it was stored.
/// Fails with `NotFound`, changing nothing, when no user has that key.
pub fn delete_user(db: &mut Database, id: i32) -> (result: Result<User, DbError>)
    ensures
        final(db)@.wf(),
        final(db)@.books == old(db)@.books,
        match result {
            Ok(user) => {
                &&& old(db)@.users.has(id as int)
                &&& final(db)@.users == old(db)@.users.delete(id as int)
                &&& user@ == old(db)@.users.row(id as int)
            },
            Err(error) => {
                &&& !old(db)@.users.has(id as int)
                &&& error == DbError::NotFound
                &&& final(db)@ == old(db)@
            },
        },
{
    proof {
        use_type_invariant(&db.books);
    }
    match db.users.delete(id) {
        Ok(row) => Ok(user_of(row)),
        Err(error) => Err(error),
    }
}

/// Removes every user. Never fails on this store; keys already generated
/// are not handed out again.
pub fn delete_all_users(db: &mut Database) -> (result: Result<(), DbError>)
    ensures
        final(db)@.wf(),
        final(db)@.books == old(db)@.books,
        result is Ok,
        final(db)@.users == old(db)@.users.clear(),
{
    proof {
        use_type_invariant(&db.books);
    }
    db.users.clear();
    Ok(())
}

/// Lists every book, in ascending key order. Never fails on this store.
pub fn get_books(db: &Database) -> (result: Result<Vec<Book>, DbError>)
    ensures
        db@.wf(),
        result matches Ok(books) && books.deep_view() == db@.books.rows && ascending(
            books.deep_view(),
        ),
{
    proof {
        use_type_invariant(&db.users);
        use_type_invariant(&db.books);
    }
    let count = db.books.len();
    let mut books: Vec<Book> = Vec::new();
    let mut index: usize = 0;
    while index < count
        invariant
            index <= count == db.books@.rows.len(),
            books.len() == index,
            forall|i: int| 0 <= i < index ==> (#[trigger] books[i])@ == db.books@.rows[i],
        decreases count - index,
    {
        if let Some(row) = db.books.get(index) {
            books.push(book_of(row.clone()));
        }
        index += 1;
    }
    Ok(books)
}

/// Stores a new book under the next key of the books table and returns the
/// stored record. Fails with `StorageFailure`, changing nothing, once the
/// table has used up its keys.
pub fn add_book(db: &mut Database, new_book: &NewBook) -> (result: Result<Book, DbError>)
    ensures
        final(db)@.wf(),
        final(db)@.users == old(db)@.users,
        match result {
            Ok(book) => {
                &&& old(db)@.books.can_insert()
                &&& final(db)@.books == old(db)@.books.insert(new_book@)
                &&& book@ == Record::of(old(db)@.books.next_id(), new_book@)
            },
            Err(error) => {
                &&& !old(db)@.books.can_insert()
                &&& error == DbError::StorageFailure
                &&& final(db)@ == old(db)@
            },
        },
{
    proof {
        use_type_invariant(&db.users);
    }
    match db.books.insert(new_book.title.clone(), new_book.author.clone()) {
        Ok(row) => Ok(book_of(row)),
        Err(error) => Err(error),
    }
}

/// Overwrites title and author of the book with key `book_id` and returns the
/// record as it then stands. Fails with `NotFound`, changing nothing, when
/// no book has that key.
pub fn replace_book(db: &mut Database, book_id: i32, new_book: &NewBook) -> (result: Result<
    Book,
    DbError,
>)
    ensures
        final(db)@.wf(),
        final(db)@.users == old(db)@.users,
        match result {
            Ok(book) => {
                &&& old(db)@.books.has(book_id as int)
                &&& final(db)@.books == old(db)@.books.replace(book_id as int, new_book@)
                &&& book@ == Record::of(book_id as int, new_book@)
            },
            Err(error) => {
                &&& !old(db)@.books.has(book_id as int)
                &&& error == DbError::NotFound
                &&& final(db)@ == old(db)@
            },
        },
{
    proof {
        use_type_invariant(&db.users);
    }
    match db.books.replace(book_id, new_book.title.clone(), new_book.author.clone()) {
        Ok(row) => Ok(book_of(row)),
        Err(error) => Err(error),
    }
}

/// Overwrites those of title and author that `book` carries, for the book
/// with key `book_id`, and returns the record as it then stands. Fails
/// with `NotFound`, changing nothing, when no book has that key.
pub fn update_book(db: &mut Database, book_id: i32, book: &UpdateBook) -> (result: Result<
    Book,
    DbError,
>)
    ensures
        final(db)@.wf(),
        final(db)@.users == old(db)@.users,
        match result {
            Ok(updated) => {
                &&& old(db)@.books.has(book_id as int)
                &&& final(db)@.books == old(db)@.books.update(book_id as int, book@)
                &&& updated@ == old(db)@.books.row(book_id as int).merged(book@)
            },
            Err(error) => {
                &&& !old(db)@.books.has(book_id as int)
                &&& error == DbError::NotFound
                &&& final(db)@ == old(db)@
            },
        },
{
    proof {
        use_type_invariant(&db.users);
    }
    match db.books.update(book_id, book.title.clone(), book.author.clone()) {
        Ok(row) => Ok(book_of(row)),
        Err(error) => Err(error),
    }
}

/// Removes the book with key `id` and returns the record as it was stored.
/// Fails with `NotFound`, changing nothing, when no book has that key.
pub fn delete_book(db: &mut Database, id: i32) -> (result: Result<Book, DbError>)
    ensures
        final(db)@.wf(),
        final(db)@.users == old(db)@.users,
        match result {
            Ok(book) => {
                &&& old(db)@.books.has(id as int)
                &&& final(db)@.books == old(db)@.books.delete(id as int)
                &&& book@ == old(db)@.books.row(id as int)
            },
            Err(error) => {
                &&& !old(db)@.books.has(id as int)
                &&& error == DbError::NotFound
                &&& final(db)@ == old(db)@
            },
        },
{
    proof {
        use_type_invariant(&db.users);
    }
    match db.books.delete(id) {
        Ok(row) => Ok(book_of(row)),
        Err(error) => Err(error),
    }
}

/// Removes every book. Never fails on this store; keys already generated
/// are not handed out again.
pub fn delete_all_books(db: &mut Database) -> (result: Result<(), DbError>)
    ensures
        final(db)@.wf(),
        final(db)@.users == old(db)@.users,
        result is Ok,
        final(db)@.books == old(db)@.books.clear(),
{
    proof {
        use_type_invariant(&db.users);
    }
    db.books.clear();
    Ok(())
}

} // verus!
