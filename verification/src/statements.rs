//! What is sent to a database server for each data-access operation when
//! the rows are kept there: the SQL text and the values bound to its
//! numbered parameters, in order. Both tables have a generated integer
//! primary key `id`. What each statement is taken to do to its table is
//! what `relation` says of the operation named beside it.

use vstd::prelude::*;
use crate::models::{NewBook, NewUser, UpdatUser, UpdateBook};

verus! {

/// A value bound to a numbered parameter of a statement.
#[derive(Debug, PartialEq, Eq)]
pub enum Argument {
    /// A key.
    Key(i32),
    /// A text.
    Text(String),
    /// A text, or null where there is none.
    OptionalText(Option<String>),
}

/// What an `Argument` stands for.
pub enum Bound {
    Key(int),
    Text(Seq<char>),
    OptionalText(Option<Seq<char>>),
}

impl DeepView for Argument {
    type V = Bound;

    open spec fn deep_view(&self) -> Bound {
        match self {
            Argument::Key(id) => Bound::Key(*id as int),
            Argument::Text(text) => Bound::Text(text@),
            Argument::OptionalText(text) => Bound::OptionalText(text.deep_view()),
        }
    }
}

/// A statement ready to be sent: its text, and the values for `$1`, `$2`
/// and so on, in that order.
#[derive(Debug, PartialEq, Eq)]
pub struct Statement {
    pub sql: &'static str,
    pub arguments: Vec<Argument>,
}

/// Listing of users: every row, in ascending key order.
pub const LIST_USERS: &'static str = "SELECT id, name, email FROM users ORDER BY id";

/// Insert of a user. `$1` is the name, `$2` the email; the new row comes back.
pub const ADD_USER: &'static str = "INSERT INTO users (name, email) VALUES ($1, $2) RETURNING *";

/// Full replacement of a user. `$1` is the name, `$2` the email, `$3` the
/// key; the row comes back as it then stands, or no row when none has the key.
pub const REPLACE_USER: &'static str =
    "UPDATE users SET name = $1, email = $2 WHERE id = $3 RETURNING *";

/// Partial update of a user. `$1` is the key, `$2` the name and `$3` the
/// email, either of which may be null and then leaves its column as it is;
/// the row comes back as it then stands, or no row when none has the key.
pub const UPDATE_USER: &'static str =
    "UPDATE users SET name = COALESCE($2, name), email = COALESCE($3, email) WHERE id = $1 RETURNING id, name, email";

/// Delete of a user. `$1` is the key; the row comes back as it was stored,
/// or no row when none has the key.
pub const DELETE_USER: &'static str = "DELETE FROM users WHERE id = $1 RETURNING id, name, email";

/// Delete of every user.
pub const DELETE_ALL_USERS: &'static str = "DELETE FROM users";

/// Listing of books: every row, in ascending key order.
pub const LIST_BOOKS: &'static str = "SELECT id, title, author FROM books ORDER BY id";

/// Insert of a book. `$1` is the title, `$2` the author; the new row comes
/// back.
pub const ADD_BOOK: &'static str = "INSERT INTO books (title, author) VALUES ($1, $2) RETURNING *";

/// Full replacement of a book. `$1` is the title, `$2` the author, `$3` the
/// key; the row comes back as it then stands, or no row when none has the key.
pub const REPLACE_BOOK: &'static str =
    "UPDATE books SET title = $1, author = $2 WHERE id = $3 RETURNING *";

/// Partial update of a book. `$1` is the key, `$2` the title and `$3` the
/// author, either of which may be null and then leaves its column as it is;
/// the row comes back as it then stands, or no row when none has the key.
pub const UPDATE_BOOK: &'static str =
    "UPDATE books SET title = COALESCE($2, title), author = COALESCE($3, author) WHERE id = $1 RETURNING id, title, author";

/// Delete of a book. `$1` is the key; the row comes back as it was stored,
/// or no row when none has the key.
pub const DELETE_BOOK: &'static str = "DELETE FROM books WHERE id = $1 RETURNING id, title, author";

/// Delete of every book.
pub const DELETE_ALL_BOOKS: &'static str = "DELETE FROM books";

/// The statement that lists every user. It binds nothing.
pub fn list_users() -> (statement: Statement)
    ensures
        statement.sql@ == LIST_USERS@,
        statement.arguments.deep_view() == Seq::<Bound>::empty(),
{
    Statement { sql: LIST_USERS, arguments: Vec::new() }
}

/// The statement that stores `new_user`: name, then email.
pub fn add_user(new_user: &NewUser) -> (statement: Statement)
    ensures
        statement.sql@ == ADD_USER@,
        statement.arguments.deep_view() == seq![
            Bound::Text(new_user.name@),
            Bound::Text(new_user.email@),
        ],
{
    let mut arguments: Vec<Argument> = Vec::new();
    arguments.push(Argument::Text(new_user.name.clone()));
    arguments.push(Argument::Text(new_user.email.clone()));
    Statement { sql: ADD_USER, arguments }
}

/// The statement that replaces the user with key `user_id` by `new_user`:
/// name, then email, then the key.
pub fn replace_user(user_id: i32, new_user: &NewUser) -> (statement: Statement)
    ensures
        statement.sql@ == REPLACE_USER@,
        statement.arguments.deep_view() == seq![
            Bound::Text(new_user.name@),
            Bound::Text(new_user.email@),
            Bound::Key(user_id as int),
        ],
{
    let mut arguments: Vec<Argument> = Vec::new();
    arguments.push(Argument::Text(new_user.name.clone()));
    arguments.push(Argument::Text(new_user.email.clone()));
    arguments.push(Argument::Key(user_id));
    Statement { sql: REPLACE_USER, arguments }
}

/// The statement that updates the user with key `new_user_id` by
/// `new_user`: the key, then the name and the email, each null where the
/// payload carries none.
pub fn update_user(new_user_id: i32, new_user: &UpdatUser) -> (statement: Statement)
    ensures
        statement.sql@ == UPDATE_USER@,
        statement.arguments.deep_view() == seq![
            Bound::Key(new_user_id as int),
            Bound::OptionalText(new_user.name.deep_view()),
            Bound::OptionalText(new_user.email.deep_view()),
        ],
{
    let mut arguments: Vec<Argument> = Vec::new();
    arguments.push(Argument::Key(new_user_id));
    arguments.push(Argument::OptionalText(new_user.name.clone()));
    arguments.push(Argument::OptionalText(new_user.email.clone()));
    Statement { sql: UPDATE_USER, arguments }
}

/// The statement that deletes the user with key `id`.
pub fn delete_user(id: i32) -> (statement: Statement)
    ensures
        statement.sql@ == DELETE_USER@,
        statement.arguments.deep_view() == seq![Bound::Key(id as int)],
{
    let mut arguments: Vec<Argument> = Vec::new();
    arguments.push(Argument::Key(id));
    Statement { sql: DELETE_USER, arguments }
}

/// The statement that deletes every user. It binds nothing.
pub fn delete_all_users() -> (statement: Statement)
    ensures
        statement.sql@ == DELETE_ALL_USERS@,
        statement.arguments.deep_view() == Seq::<Bound>::empty(),
{
    Statement { sql: DELETE_ALL_USERS, arguments: Vec::new() }
}

/// The statement that lists every book. It binds nothing.
pub fn list_books() -> (statement: Statement)
    ensures
        statement.sql@ == LIST_BOOKS@,
        statement.arguments.deep_view() == Seq::<Bound>::empty(),
{
    Statement { sql: LIST_BOOKS, arguments: Vec::new() }
}

/// The statement that stores `new_book`: title, then author.
pub fn add_book(new_book: &NewBook) -> (statement: Statement)
    ensures
        statement.sql@ == ADD_BOOK@,
        statement.arguments.deep_view() == seq![
            Bound::Text(new_book.title@),
            Bound::Text(new_book.author@),
        ],
{
    let mut arguments: Vec<Argument> = Vec::new();
    arguments.push(Argument::Text(new_book.title.clone()));
    arguments.push(Argument::Text(new_book.author.clone()));
    Statement { sql: ADD_BOOK, arguments }
}

/// The statement that replaces the book with key `book_id` by `new_book`:
/// title, then author, then the key.
pub fn replace_book(book_id: i32, new_book: &NewBook) -> (statement: Statement)
    ensures
        statement.sql@ == REPLACE_BOOK@,
        statement.arguments.deep_view() == seq![
            Bound::Text(new_book.title@),
            Bound::Text(new_book.author@),
            Bound::Key(book_id as int),
        ],
{
    let mut arguments: Vec<Argument> = Vec::new();
    arguments.push(Argument::Text(new_book.title.clone()));
    arguments.push(Argument::Text(new_book.author.clone()));
    arguments.push(Argument::Key(book_id));
    Statement { sql: REPLACE_BOOK, arguments }
}

/// The statement that updates the book with key `book_id` by `book`: the
/// key, then the title and the author, each null where the payload carries
/// none.
pub fn update_book(book_id: i32, book: &UpdateBook) -> (statement: Statement)
    ensures
        statement.sql@ == UPDATE_BOOK@,
        statement.arguments.deep_view() == seq![
            Bound::Key(book_id as int),
            Bound::OptionalText(book.title.deep_view()),
            Bound::OptionalText(book.author.deep_view()),
        ],
{
    let mut arguments: Vec<Argument> = Vec::new();
    arguments.push(Argument::Key(book_id));
    arguments.push(Argument::OptionalText(book.title.clone()));
    arguments.push(Argument::OptionalText(book.author.clone()));
    Statement { sql: UPDATE_BOOK, arguments }
}

/// The statement that deletes the book with key `id`.
pub fn delete_book(id: i32) -> (statement: Statement)
    ensures
        statement.sql@ == DELETE_BOOK@,
        statement.arguments.deep_view() == seq![Bound::Key(id as int)],
{
    let mut arguments: Vec<Argument> = Vec::new();
    arguments.push(Argument::Key(id));
    Statement { sql: DELETE_BOOK, arguments }
}

/// The statement that deletes every book. It binds nothing.
pub fn delete_all_books() -> (statement: Statement)
    ensures
        statement.sql@ == DELETE_ALL_BOOKS@,
        statement.arguments.deep_view() == Seq::<Bound>::empty(),
{
    Statement { sql: DELETE_ALL_BOOKS, arguments: Vec::new() }
}

} // verus!
