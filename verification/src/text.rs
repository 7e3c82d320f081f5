//! How values are written out in a response: integers in decimal, strings
//! quoted and escaped, a record as its type name with its fields in braces,
//! and a listing as its records in square brackets.

use vstd::prelude::*;
use vstd::string::StringExecFns;
use crate::models::{Book, User};
use crate::relation::Record;

verus! {

/// The character for one decimal digit.
pub open spec fn digit(d: nat) -> char {
    if d == 0 {
        '0'
    } else if d == 1 {
        '1'
    } else if d == 2 {
        '2'
    } else if d == 3 {
        '3'
    } else if d == 4 {
        '4'
    } else if d == 5 {
        '5'
    } else if d == 6 {
        '6'
    } else if d == 7 {
        '7'
    } else if d == 8 {
        '8'
    } else {
        '9'
    }
}

/// The decimal digits of `n`, most significant first, without leading zeros.
pub open spec fn digits(n: nat) -> Seq<char>
    decreases n,
{
    if n < 10 {
        seq![digit(n)]
    } else {
        digits(n / 10).push(digit(n % 10))
    }
}

/// `n` in decimal, with a minus sign in front when it is negative.
pub open spec fn decimal(n: int) -> Seq<char> {
    if n < 0 {
        seq!['-'] + digits((-n) as nat)
    } else {
        digits(n as nat)
    }
}

fn digit_text(d: u32) -> (text: &'static str)
    requires
        d < 10,
    ensures
        text@ == seq![digit(d as nat)],
{
    proof {
        reveal_strlit("0");
        reveal_strlit("1");
        reveal_strlit("2");
        reveal_strlit("3");
        reveal_strlit("4");
        reveal_strlit("5");
        reveal_strlit("6");
        reveal_strlit("7");
        reveal_strlit("8");
        reveal_strlit("9");
    }
    let text = if d == 0 {
        "0"
    } else if d == 1 {
        "1"
    } else if d == 2 {
        "2"
    } else if d == 3 {
        "3"
    } else if d == 4 {
        "4"
    } else if d == 5 {
        "5"
    } else if d == 6 {
        "6"
    } else if d == 7 {
        "7"
    } else if d == 8 {
        "8"
    } else {
        "9"
    };
    text
}

fn push_digits(out: &mut String, n: u32)
    ensures
        final(out)@ == old(out)@ + digits(n as nat),
    decreases n,
{
    if n >= 10 {
        push_digits(out, n / 10);
    }
    out.append(digit_text(n % 10));
}

/// Appends `n` in decimal to `out`.
pub fn push_decimal(out: &mut String, n: i32)
    ensures
        final(out)@ == old(out)@ + decimal(n as int),
{
    if n < 0 {
        let magnitude: i64 = -(n as i64);
        proof {
            reveal_strlit("-");
        }
        out.append("-");
        push_digits(out, magnitude as u32);
    } else {
        push_digits(out, n as u32);
    }
}

/// A string as `{:?}` formatting writes it: between double quotes, with
/// quotes, backslashes and characters that do not print escaped.
pub uninterp spec fn quoted(text: Seq<char>) -> Seq<char>;

/// Calls std's `Debug` formatting of `str` through `format!`. Trusted: the
/// result is that formatting of the characters of `text`, which depends on
/// nothing else.
#[verifier::external_body]
fn quote(text: &str) -> (out: String)
    ensures
        out@ == quoted(text@),
{
    format!("{:?}", text)
}

/// A user written out with its type name and named fields.
pub open spec fn user_text(user: Record) -> Seq<char> {
    "User { id: "@ + decimal(user.id) + ", name: "@ + quoted(user.first) + ", email: "@ + quoted(
        user.second,
    ) + " }"@
}

/// A book written out with its type name and named fields.
pub open spec fn book_text(book: Record) -> Seq<char> {
    "Book { id: "@ + decimal(book.id) + ", title: "@ + quoted(book.first) + ", author: "@
        + quoted(book.second) + " }"@
}

/// The texts of `items`, each but the first preceded by a comma and a space.
pub open spec fn joined(items: Seq<Seq<char>>) -> Seq<char>
    decreases items.len(),
{
    if items.len() == 0 {
        Seq::empty()
    } else if items.len() == 1 {
        items[0]
    } else {
        joined(items.drop_last()) + ", "@ + items.last()
    }
}

/// A listing of users: their texts, separated by commas, in square brackets.
pub open spec fn users_text(users: Seq<Record>) -> Seq<char> {
    "["@ + joined(users.map_values(|user: Record| user_text(user))) + "]"@
}

/// A listing of books: their texts, separated by commas, in square brackets.
pub open spec fn books_text(books: Seq<Record>) -> Seq<char> {
    "["@ + joined(books.map_values(|book: Record| book_text(book))) + "]"@
}

/// Appends the text of `user` to `out`.
pub fn push_user(out: &mut String, user: &User)
    ensures
        final(out)@ == old(out)@ + user_text(user@),
{
    out.append("User { id: ");
    push_decimal(out, user.id);
    out.append(", name: ");
    let name = quote(user.name.as_str());
    out.append(name.as_str());
    out.append(", email: ");
    let email = quote(user.email.as_str());
    out.append(email.as_str());
    out.append(" }");
}

/// Appends the text of `book` to `out`.
pub fn push_book(out: &mut String, book: &Book)
    ensures
        final(out)@ == old(out)@ + book_text(book@),
{
    out.append("Book { id: ");
    push_decimal(out, book.id);
    out.append(", title: ");
    let title = quote(book.title.as_str());
    out.append(title.as_str());
    out.append(", author: ");
    let author = quote(book.author.as_str());
    out.append(author.as_str());
    out.append(" }");
}

/// Appends the listing of `users` to `out`.
pub fn push_users(out: &mut String, users: &Vec<User>)
    ensures
        final(out)@ == old(out)@ + users_text(users.deep_view()),
{
    let ghost texts = users.deep_view().map_values(|user: Record| user_text(user));
    out.append("[");
    let mut index: usize = 0;
    while index < users.len()
        invariant
            index <= users.len(),
            texts == users.deep_view().map_values(|user: Record| user_text(user)),
            out@ == old(out)@ + "["@ + joined(texts.take(index as int)),
        decreases users.len() - index,
    {
        if index > 0 {
            out.append(", ");
        }
        push_user(out, &users[index]);
        proof {
            assert(texts.take(index + 1).drop_last() =~= texts.take(index as int));
        }
        index += 1;
    }
    out.append("]");
    proof {
        assert(texts.take(users.len() as int) =~= texts);
    }
}

/// Appends the listing of `books` to `out`.
pub fn push_books(out: &mut String, books: &Vec<Book>)
    ensures
        final(out)@ == old(out)@ + books_text(books.deep_view()),
{
    let ghost texts = books.deep_view().map_values(|book: Record| book_text(book));
    out.append("[");
    let mut index: usize = 0;
    while index < books.len()
        invariant
            index <= books.len(),
            texts == books.deep_view().map_values(|book: Record| book_text(book)),
            out@ == old(out)@ + "["@ + joined(texts.take(index as int)),
        decreases books.len() - index,
    {
        if index > 0 {
            out.append(", ");
        }
        push_book(out, &books[index]);
        proof {
            assert(texts.take(index + 1).drop_last() =~= texts.take(index as int));
        }
        index += 1;
    }
    out.append("]");
    proof {
        assert(texts.take(books.len() as int) =~= texts);
    }
}

} // verus!
