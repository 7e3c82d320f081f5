use my_rest_api::db::{
    add_book, delete_all_books, delete_book, get_books, replace_book, update_book, Database,
};
use my_rest_api::models::{NewBook, UpdateBook};

// A fresh store for one test.
fn get_test_books_db() -> Database {
    Database::new()
}

fn setup_test_books(db: &mut Database) {
    delete_all_books(db).expect("Failed to delete all Books");

    // Insert Book 1
    let book1 = NewBook {
        title: "War and Peace".to_string(),
        author: "Leo Tolstoy".to_string(),
    };
    add_book(db, &book1).expect("Failed to insert test Book 1");

    // Insert Book 2
    let book2 = NewBook {
        title: "The Alchemist".to_string(),
        author: "Paolo Coelho".to_string(),
    };
    add_book(db, &book2).expect("Failed to insert test Book 2");
}

fn teardown_test_books(db: &mut Database) {
    delete_all_books(db).expect("Failed to delete all Books");
}

#[test]
fn test_get_books() {
    let mut db = get_test_books_db();

    setup_test_books(&mut db);

    let result = get_books(&db);
    if let Err(e) = &result {
        println!("Error: {:?}", e);
    }
    assert!(result.is_ok());
    let books = result.unwrap();
    assert_eq!(books.len(), 2);
    assert_eq!(books[0].author, "Leo Tolstoy");
    assert_eq!(books[1].author, "Paolo Coelho");

    teardown_test_books(&mut db);
}

#[test]
fn test_update_book() {
    let mut db = get_test_books_db();

    setup_test_books(&mut db);

    let result = get_books(&db);
    assert!(result.is_ok());
    let books = result.unwrap();
    assert_eq!(books.len(), 2);

    let book_title_changed_only = UpdateBook {
        title: Some("War Updated".to_string()),
        author: None,
    };

    let book_author_changed_only = UpdateBook {
        title: None,
        author: Some("Paolo updated".to_string()),
    };

    let result = update_book(&mut db, books[0].id, &book_title_changed_only);
    assert!(result.is_ok());
    let book = result.unwrap();
    assert_eq!(book.title, "War Updated".to_string());
    assert_eq!(book.author, books[0].author);

    let result = update_book(&mut db, books[1].id, &book_author_changed_only);
    assert!(result.is_ok());
    let book = result.unwrap();
    assert_eq!(book.title, books[1].title);
    assert_eq!(book.author, "Paolo updated".to_string());

    teardown_test_books(&mut db);
}

#[test]
fn test_delete_book() {
    let mut db = get_test_books_db();

    setup_test_books(&mut db);

    let result = get_books(&db);
    assert!(result.is_ok());
    let books = result.unwrap();
    assert_eq!(books.len(), 2);

    let result = delete_book(&mut db, books[0].id);
    assert!(result.is_ok());
    let book = result.unwrap();
    assert_eq!(book.id, books[0].id);
    assert_eq!(book.title, books[0].title);
    assert_eq!(book.author, books[0].author);

    let result = get_books(&db);
    assert!(result.is_ok());
    let books = result.unwrap();
    assert_eq!(books.len(), 1);

    teardown_test_books(&mut db);
}

#[test]
fn test_replace_book() {
    let mut db = get_test_books_db();

    setup_test_books(&mut db);

    let result = get_books(&db);
    assert!(result.is_ok());
    let books = result.unwrap();
    assert_eq!(books.len(), 2);

    let new_book = NewBook {
        title: "Updated Title".to_string(),
        author: "Updated Author".to_string(),
    };

    let result = replace_book(&mut db, books[1].id, &new_book);
    assert!(result.is_ok());
    let replaced_book = result.unwrap();
    assert_eq!(replaced_book.id, books[1].id);
    assert_eq!(replaced_book.title, new_book.title);
    assert_eq!(replaced_book.author, new_book.author);

    let result = get_books(&db);
    assert!(result.is_ok());
    let books = result.unwrap();
    assert_eq!(books.len(), 2);
    assert_eq!(books[1].title, new_book.title);
    assert_eq!(books[1].author, new_book.author);

    teardown_test_books(&mut db);
}
