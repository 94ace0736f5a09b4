//! End-to-end behaviour of the service logic: book creation and lookup,
//! the user echo stub, and the root greeting.

use book_service::endpoints::book::{BookApi, CreateBookResponse, GetBookResponse, UpdateBook};
use book_service::endpoints::book::{create_response, get_response, validate_title, DbError};
use book_service::endpoints::users::{validate_name, UpdateUser, UpdateUserResponse, User, UsersApi};
use book_service::models;
use book_service::Api;

fn created(r: CreateBookResponse) -> (i64, String) {
    match r {
        CreateBookResponse::Created(b) => (b.id, b.title),
        CreateBookResponse::BadRequest => panic!("unexpected BadRequest"),
        CreateBookResponse::InternalError => panic!("unexpected InternalError"),
    }
}

#[test]
fn create_then_get_returns_same_title() {
    let mut api = BookApi::new();
    let (id, title) = created(api.create_book(UpdateBook { title: "Dune".to_string() }));
    assert!(id >= 0);
    assert_eq!(title, "Dune");
    match api.get_book(id) {
        GetBookResponse::Found(b) => {
            assert_eq!(b.id, id);
            assert_eq!(b.title, "Dune");
        }
        _ => panic!("expected the created book"),
    }
}

#[test]
fn get_unknown_id_is_404_with_exact_message() {
    let api = BookApi::new();
    match api.get_book(999) {
        GetBookResponse::NotFound(m) => assert_eq!(m, "Book 999 not found"),
        _ => panic!("expected NotFound"),
    }
    match api.get_book(-7) {
        GetBookResponse::NotFound(m) => assert_eq!(m, "Book -7 not found"),
        _ => panic!("expected NotFound"),
    }
}

#[test]
fn overlong_title_rejected_before_persistence() {
    let mut api = BookApi::new();
    let long = "x".repeat(65);
    match api.create_book(UpdateBook { title: long }) {
        CreateBookResponse::BadRequest => {}
        _ => panic!("expected BadRequest"),
    }
    // No row was inserted: the identifier the insert would have used is absent.
    match api.get_book(1) {
        GetBookResponse::NotFound(m) => assert_eq!(m, "Book 1 not found"),
        _ => panic!("expected NotFound"),
    }
}

#[test]
fn boundary_title_lengths() {
    let mut api = BookApi::new();
    let exact = "y".repeat(64);
    let (_, title) = created(api.create_book(UpdateBook { title: exact.clone() }));
    assert_eq!(title, exact);
    assert!(validate_title(&"z".repeat(64)));
    assert!(!validate_title(&"z".repeat(65)));
    // The bound counts characters, not bytes.
    assert!(validate_title(&"é".repeat(64)));
    assert!(!validate_title(&"é".repeat(65)));
}

#[test]
fn distinct_creates_get_distinct_ids() {
    let mut api = BookApi::new();
    let (id1, t1) = created(api.create_book(UpdateBook { title: "first".to_string() }));
    let (id2, t2) = created(api.create_book(UpdateBook { title: "second".to_string() }));
    assert_ne!(id1, id2);
    assert_eq!(t1, "first");
    assert_eq!(t2, "second");
    match api.get_book(id1) {
        GetBookResponse::Found(b) => assert_eq!(b.title, "first"),
        _ => panic!("expected the first book"),
    }
    match api.get_book(id2) {
        GetBookResponse::Found(b) => assert_eq!(b.title, "second"),
        _ => panic!("expected the second book"),
    }
}

#[test]
fn end_to_end_scenario() {
    let mut api = BookApi::new();
    let (id, title) = created(api.create_book(UpdateBook { title: "Dune".to_string() }));
    assert_eq!(id, 1);
    assert_eq!(title, "Dune");
    match api.get_book(1) {
        GetBookResponse::Found(b) => {
            assert_eq!(b.id, 1);
            assert_eq!(b.title, "Dune");
        }
        _ => panic!("expected book 1"),
    }
    match api.get_book(999) {
        GetBookResponse::NotFound(m) => assert_eq!(m, "Book 999 not found"),
        _ => panic!("expected NotFound for 999"),
    }
}

fn echoed(r: UpdateUserResponse) -> User {
    match r {
        UpdateUserResponse::Created(u) => u,
    }
}

#[test]
fn create_user_always_echoes_with_fixed_id() {
    let api = UsersApi;
    let u = echoed(api.create_user(UpdateUser { name: "alice".to_string() }));
    assert_eq!(u.id, 1);
    assert_eq!(u.name, "alice");
    assert!(u.age.is_none());
    assert!(u.email.is_none());
    assert!(u.password.is_none());
    // No observable side effect: a later call behaves the same.
    let v = echoed(api.create_user(UpdateUser { name: "bob".to_string() }));
    assert_eq!(v.id, 1);
    assert_eq!(v.name, "bob");
    assert!(v.age.is_none() && v.email.is_none() && v.password.is_none());
    assert!(validate_name(&"n".repeat(64)));
    assert!(!validate_name(&"n".repeat(65)));
}

#[test]
fn root_greeting_is_fixed() {
    let api = Api;
    assert_eq!(api.index(), "Hello World");
    // No handle to any other component exists: the answer cannot depend
    // on database availability.
    assert_eq!(api.index(), "Hello World");
}

#[test]
fn outcome_mapping_matches_status_taxonomy() {
    match create_response(Ok(models::Book { id: 7, title: "t".to_string() })) {
        CreateBookResponse::Created(b) => {
            assert_eq!(b.id, 7);
            assert_eq!(b.title, "t");
        }
        _ => panic!("expected Created"),
    }
    match create_response(Err(DbError { message: "connection reset".to_string() })) {
        CreateBookResponse::InternalError => {}
        _ => panic!("expected InternalError"),
    }
    match get_response(7, Ok(Some(models::Book { id: 7, title: "t".to_string() }))) {
        GetBookResponse::Found(b) => {
            assert_eq!(b.id, 7);
            assert_eq!(b.title, "t");
        }
        _ => panic!("expected Found"),
    }
    match get_response(7, Ok(None)) {
        GetBookResponse::NotFound(m) => assert_eq!(m, "Book 7 not found"),
        _ => panic!("expected NotFound"),
    }
    match get_response(7, Err(DbError { message: "connection reset".to_string() })) {
        GetBookResponse::InternalError => {}
        _ => panic!("expected InternalError"),
    }
}
