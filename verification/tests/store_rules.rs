use my_rest_api::db::{
    add_book, add_user, delete_all_books, delete_all_users, delete_book, delete_user, get_books,
    get_users, replace_book, replace_user, update_book, update_user, Database,
};
use my_rest_api::error::DbError;
use my_rest_api::models::{Book, NewBook, NewUser, UpdatUser, UpdateBook, User};

fn new_user(name: &str, email: &str) -> NewUser {
    NewUser { name: name.to_string(), email: email.to_string() }
}

fn new_book(title: &str, author: &str) -> NewBook {
    NewBook { title: title.to_string(), author: author.to_string() }
}

fn user(id: i32, name: &str, email: &str) -> User {
    User { id, name: name.to_string(), email: email.to_string() }
}

fn book(id: i32, title: &str, author: &str) -> Book {
    Book { id, title: title.to_string(), author: author.to_string() }
}

#[test]
fn new_store_lists_nothing() {
    let db = Database::new();
    assert_eq!(get_users(&db), Ok(vec![]));
    assert_eq!(get_books(&db), Ok(vec![]));
}

#[test]
fn keys_start_at_one_and_rise_by_one() {
    let mut db = Database::new();
    assert_eq!(add_user(&mut db, &new_user("a", "a@x")), Ok(user(1, "a", "a@x")));
    assert_eq!(add_user(&mut db, &new_user("b", "b@x")), Ok(user(2, "b", "b@x")));
    assert_eq!(add_user(&mut db, &new_user("c", "c@x")), Ok(user(3, "c", "c@x")));
    assert_eq!(add_book(&mut db, &new_book("t", "u")), Ok(book(1, "t", "u")));
}

#[test]
fn a_key_is_never_handed_out_twice() {
    let mut db = Database::new();
    let mut seen: Vec<i32> = Vec::new();
    for round in 0..5 {
        let first = add_user(&mut db, &new_user("x", "y")).unwrap();
        let second = add_user(&mut db, &new_user("x", "y")).unwrap();
        assert!(!seen.contains(&first.id));
        seen.push(first.id);
        assert!(!seen.contains(&second.id));
        seen.push(second.id);
        if round % 2 == 0 {
            delete_user(&mut db, second.id).unwrap();
        } else {
            delete_all_users(&mut db).unwrap();
        }
    }
    assert_eq!(seen, vec![1, 2, 3, 4, 5, 6, 7, 8, 9, 10]);
}

#[test]
fn key_of_a_deleted_row_is_not_reused() {
    let mut db = Database::new();
    add_book(&mut db, &new_book("one", "a")).unwrap();
    add_book(&mut db, &new_book("two", "b")).unwrap();
    assert_eq!(delete_book(&mut db, 2), Ok(book(2, "two", "b")));
    assert_eq!(add_book(&mut db, &new_book("three", "c")), Ok(book(3, "three", "c")));
    delete_all_books(&mut db).unwrap();
    assert_eq!(add_book(&mut db, &new_book("four", "d")), Ok(book(4, "four", "d")));
    assert_eq!(get_books(&db), Ok(vec![book(4, "four", "d")]));
}

#[test]
fn duplicates_of_a_payload_are_stored_under_their_own_keys() {
    let mut db = Database::new();
    let payload = new_user("same", "same@x");
    let first = add_user(&mut db, &payload).unwrap();
    let second = add_user(&mut db, &payload).unwrap();
    assert_ne!(first.id, second.id);
    assert_eq!(get_users(&db), Ok(vec![user(1, "same", "same@x"), user(2, "same", "same@x")]));
}

#[test]
fn listing_is_in_key_order_and_counts_inserts_less_deletes() {
    let mut db = Database::new();
    let mut inserted = 0;
    let mut deleted = 0;
    for i in 0..20 {
        add_user(&mut db, &new_user(&format!("n{}", i), "e")).unwrap();
        inserted += 1;
    }
    for id in [7, 1, 20, 13, 14] {
        delete_user(&mut db, id).unwrap();
        deleted += 1;
    }
    assert_eq!(delete_user(&mut db, 7), Err(DbError::NotFound));
    for i in 0..3 {
        add_user(&mut db, &new_user(&format!("m{}", i), "e")).unwrap();
        inserted += 1;
    }
    let users = get_users(&db).unwrap();
    assert_eq!(users.len(), inserted - deleted);
    for pair in users.windows(2) {
        assert!(pair[0].id < pair[1].id);
    }
    let ids: Vec<i32> = users.iter().map(|u| u.id).collect();
    assert_eq!(ids, vec![2, 3, 4, 5, 6, 8, 9, 10, 11, 12, 15, 16, 17, 18, 19, 21, 22, 23]);
}

#[test]
fn books_scenario_insert_update_delete() {
    let mut db = Database::new();
    add_book(&mut db, &new_book("War and Peace", "Leo Tolstoy")).unwrap();
    add_book(&mut db, &new_book("The Alchemist", "Paolo Coelho")).unwrap();
    assert_eq!(
        get_books(&db),
        Ok(vec![book(1, "War and Peace", "Leo Tolstoy"), book(2, "The Alchemist", "Paolo Coelho")])
    );

    let patch = UpdateBook { title: Some("War Updated".to_string()), author: None };
    assert_eq!(update_book(&mut db, 1, &patch), Ok(book(1, "War Updated", "Leo Tolstoy")));
    let books = get_books(&db).unwrap();
    assert_eq!(books[0].title, "War Updated");
    assert_eq!(books[0].author, "Leo Tolstoy");

    assert_eq!(delete_book(&mut db, 1), Ok(book(1, "War Updated", "Leo Tolstoy")));
    let books = get_books(&db).unwrap();
    assert_eq!(books.len(), 1);
    assert_eq!(books[0], book(2, "The Alchemist", "Paolo Coelho"));
}

#[test]
fn partial_update_leaves_unnamed_columns_and_other_rows() {
    let mut db = Database::new();
    add_user(&mut db, &new_user("a", "a@x")).unwrap();
    add_user(&mut db, &new_user("b", "b@x")).unwrap();
    add_user(&mut db, &new_user("c", "c@x")).unwrap();

    let name_only = UpdatUser { name: Some("B".to_string()), email: None };
    assert_eq!(update_user(&mut db, 2, &name_only), Ok(user(2, "B", "b@x")));
    assert_eq!(
        get_users(&db),
        Ok(vec![user(1, "a", "a@x"), user(2, "B", "b@x"), user(3, "c", "c@x")])
    );

    let email_only = UpdatUser { name: None, email: Some("B@y".to_string()) };
    assert_eq!(update_user(&mut db, 2, &email_only), Ok(user(2, "B", "B@y")));

    let both = UpdatUser { name: Some("bb".to_string()), email: Some("bb@z".to_string()) };
    assert_eq!(update_user(&mut db, 2, &both), Ok(user(2, "bb", "bb@z")));
    assert_eq!(
        get_users(&db),
        Ok(vec![user(1, "a", "a@x"), user(2, "bb", "bb@z"), user(3, "c", "c@x")])
    );
}

#[test]
fn partial_update_that_names_nothing_changes_nothing() {
    let mut db = Database::new();
    add_book(&mut db, &new_book("t", "a")).unwrap();
    let nothing = UpdateBook { title: None, author: None };
    assert_eq!(update_book(&mut db, 1, &nothing), Ok(book(1, "t", "a")));
    assert_eq!(get_books(&db), Ok(vec![book(1, "t", "a")]));
    assert_eq!(update_book(&mut db, 2, &nothing), Err(DbError::NotFound));
}

#[test]
fn an_empty_text_is_a_value_and_overwrites() {
    let mut db = Database::new();
    add_user(&mut db, &new_user("a", "a@x")).unwrap();
    let patch = UpdatUser { name: Some(String::new()), email: None };
    assert_eq!(update_user(&mut db, 1, &patch), Ok(user(1, "", "a@x")));
    assert_eq!(add_user(&mut db, &new_user("", "")), Ok(user(2, "", "")));
}

#[test]
fn full_replacement_takes_the_payload_and_keeps_the_key() {
    let mut db = Database::new();
    add_book(&mut db, &new_book("t1", "a1")).unwrap();
    add_book(&mut db, &new_book("t2", "a2")).unwrap();
    add_book(&mut db, &new_book("t3", "a3")).unwrap();
    assert_eq!(replace_book(&mut db, 1, &new_book("T", "A")), Ok(book(1, "T", "A")));
    assert_eq!(
        get_books(&db),
        Ok(vec![book(1, "T", "A"), book(2, "t2", "a2"), book(3, "t3", "a3")])
    );
    assert_eq!(replace_book(&mut db, 3, &new_book("", "")), Ok(book(3, "", "")));
    assert_eq!(get_books(&db), Ok(vec![book(1, "T", "A"), book(2, "t2", "a2"), book(3, "", "")]));
}

#[test]
fn delete_returns_the_stored_values_and_the_listing_drops_the_key() {
    let mut db = Database::new();
    add_user(&mut db, &new_user("a", "a@x")).unwrap();
    add_user(&mut db, &new_user("b", "b@x")).unwrap();
    add_user(&mut db, &new_user("c", "c@x")).unwrap();
    replace_user(&mut db, 2, &new_user("B", "B@x")).unwrap();
    assert_eq!(delete_user(&mut db, 2), Ok(user(2, "B", "B@x")));
    let users = get_users(&db).unwrap();
    assert!(users.iter().all(|u| u.id != 2));
    assert_eq!(users, vec![user(1, "a", "a@x"), user(3, "c", "c@x")]);
    assert_eq!(delete_user(&mut db, 2), Err(DbError::NotFound));
    assert_eq!(delete_user(&mut db, 3), Ok(user(3, "c", "c@x")));
    assert_eq!(delete_user(&mut db, 1), Ok(user(1, "a", "a@x")));
    assert_eq!(get_users(&db), Ok(vec![]));
}

#[test]
fn delete_all_empties_the_table() {
    let mut db = Database::new();
    assert_eq!(delete_all_users(&mut db), Ok(()));
    assert_eq!(get_users(&db), Ok(vec![]));
    add_user(&mut db, &new_user("a", "a@x")).unwrap();
    add_user(&mut db, &new_user("b", "b@x")).unwrap();
    assert_eq!(delete_all_users(&mut db), Ok(()));
    assert_eq!(get_users(&db), Ok(vec![]));
    assert_eq!(delete_user(&mut db, 1), Err(DbError::NotFound));
    assert_eq!(delete_all_books(&mut db), Ok(()));
    assert_eq!(get_books(&db), Ok(vec![]));
}

#[test]
fn the_two_tables_do_not_touch_each_other() {
    let mut db = Database::new();
    add_user(&mut db, &new_user("a", "a@x")).unwrap();
    add_book(&mut db, &new_book("t", "w")).unwrap();
    add_book(&mut db, &new_book("t2", "w2")).unwrap();
    delete_all_users(&mut db).unwrap();
    assert_eq!(get_books(&db), Ok(vec![book(1, "t", "w"), book(2, "t2", "w2")]));
    add_user(&mut db, &new_user("b", "b@x")).unwrap();
    delete_all_books(&mut db).unwrap();
    assert_eq!(get_users(&db), Ok(vec![user(2, "b", "b@x")]));
    assert_eq!(delete_book(&mut db, 2), Err(DbError::NotFound));
    assert_eq!(delete_user(&mut db, 2), Ok(user(2, "b", "b@x")));
}

#[test]
fn operations_by_key_fail_with_not_found_and_change_nothing() {
    let mut db = Database::new();
    add_user(&mut db, &new_user("a", "a@x")).unwrap();
    add_book(&mut db, &new_book("t", "w")).unwrap();
    let patch_user = UpdatUser { name: Some("z".to_string()), email: Some("z".to_string()) };
    let patch_book = UpdateBook { title: Some("z".to_string()), author: Some("z".to_string()) };
    for id in [0, -1, 2, 17, i32::MAX, i32::MIN] {
        assert_eq!(replace_user(&mut db, id, &new_user("z", "z")), Err(DbError::NotFound));
        assert_eq!(update_user(&mut db, id, &patch_user), Err(DbError::NotFound));
        assert_eq!(delete_user(&mut db, id), Err(DbError::NotFound));
        assert_eq!(replace_book(&mut db, id, &new_book("z", "z")), Err(DbError::NotFound));
        assert_eq!(update_book(&mut db, id, &patch_book), Err(DbError::NotFound));
        assert_eq!(delete_book(&mut db, id), Err(DbError::NotFound));
    }
    assert_eq!(get_users(&db), Ok(vec![user(1, "a", "a@x")]));
    assert_eq!(get_books(&db), Ok(vec![book(1, "t", "w")]));
}

#[test]
fn insert_fails_with_storage_failure_once_the_keys_are_used_up() {
    let mut db = Database::with_last_ids(i32::MAX - 1, 0).unwrap();
    assert_eq!(add_user(&mut db, &new_user("last", "l@x")), Ok(user(i32::MAX, "last", "l@x")));
    assert_eq!(add_user(&mut db, &new_user("over", "o@x")), Err(DbError::StorageFailure));
    assert_eq!(get_users(&db), Ok(vec![user(i32::MAX, "last", "l@x")]));
    delete_all_users(&mut db).unwrap();
    assert_eq!(add_user(&mut db, &new_user("over", "o@x")), Err(DbError::StorageFailure));
    assert_eq!(get_users(&db), Ok(vec![]));
    assert_eq!(add_book(&mut db, &new_book("t", "w")), Ok(book(1, "t", "w")));

    let mut db = Database::with_last_ids(3, i32::MAX).unwrap();
    assert_eq!(add_book(&mut db, &new_book("t", "w")), Err(DbError::StorageFailure));
    assert_eq!(get_books(&db), Ok(vec![]));
    assert_eq!(add_user(&mut db, &new_user("a", "a@x")), Ok(user(4, "a", "a@x")));
}

#[test]
fn a_store_resumes_after_the_keys_it_is_given() {
    let mut db = Database::with_last_ids(5, 7).unwrap();
    assert_eq!(get_users(&db), Ok(vec![]));
    assert_eq!(get_books(&db), Ok(vec![]));
    assert_eq!(add_user(&mut db, &new_user("a", "a@x")), Ok(user(6, "a", "a@x")));
    assert_eq!(add_book(&mut db, &new_book("t", "w")), Ok(book(8, "t", "w")));
    let mut fresh = Database::with_last_ids(0, 0).unwrap();
    assert_eq!(add_user(&mut fresh, &new_user("a", "a@x")), Ok(user(1, "a", "a@x")));
    assert!(Database::with_last_ids(-1, 0).is_none());
    assert!(Database::with_last_ids(0, -1).is_none());
    assert!(Database::with_last_ids(i32::MIN, i32::MIN).is_none());
}
