//! The book resource.
//!
//! The handler decides three things: whether the title passes
//! validation, what the insert or lookup means for the table, and how a
//! database outcome maps to a typed response. The decisions are here,
//! verified; the process edge runs the SQL and hands the outcome in as
//! a plain value. `BookApi` binds the same decisions to the storage
//! model, so the end-to-end behaviour is proved as well.

use vstd::prelude::*;
use vstd::string::StrSliceExecFns;
use crate::models;
use crate::store::BookStore;
use crate::store::spec_insert;
use crate::store::spec_lookup;
use crate::text::not_found_message;
use crate::text::spec_not_found_message;

verus! {

/// Wire representation of a book: the stored 32-bit identifier widened
/// to 64 bits.
#[derive(Debug, Clone)]
pub struct Book {
    pub id: i64,
    pub title: String,
}

/// Creation request body: the title alone; the server assigns the
/// identifier.
#[derive(Debug, Clone)]
pub struct UpdateBook {
    pub title: String,
}

/// A database failure, carried as plain text. The service never
/// inspects it: any failure maps to a 500.
#[derive(Debug)]
pub struct DbError {
    pub message: String,
}

/// Typed response of the create operation: 200 with the new row, a
/// client error for an over-long title, or a 500 for a database
/// failure.
pub enum CreateBookResponse {
    Created(Book),
    BadRequest,
    InternalError,
}

/// Typed response of the get operation: 200 with the row, 404 with a
/// plain-text message, or a 500 for a database failure.
pub enum GetBookResponse {
    Found(Book),
    NotFound(String),
    InternalError,
}

/// Boundary validation of the title: at most 64 characters. A longer
/// title is rejected before anything reaches the table.
pub fn validate_title(title: &String) -> (r: bool)
    ensures
        r == (title@.len() <= 64),
{
    title.as_str().unicode_len() <= 64
}

/// Maps the outcome of the insert statement to the typed response: the
/// returned row on success, a 500 on any database error.
pub fn create_response(outcome: Result<models::Book, DbError>) -> (r: CreateBookResponse)
    ensures
        (match outcome {
            Ok(row) => r matches CreateBookResponse::Created(b) && b.id as int == row.id as int
                && b.title@ == row.title@,
            Err(_) => r is InternalError,
        }),
{
    match outcome {
        Ok(row) => CreateBookResponse::Created(Book { id: row.id as i64, title: row.title }),
        Err(_) => CreateBookResponse::InternalError,
    }
}

/// Maps the outcome of the primary-key lookup to the typed response: the
/// row on a hit, 404 with exactly "Book {id} not found" on a miss, a
/// 500 on any database error.
pub fn get_response(id: i64, outcome: Result<Option<models::Book>, DbError>) -> (r:
    GetBookResponse)
    ensures
        (match outcome {
            Ok(Some(row)) => r matches GetBookResponse::Found(b) && b.id as int == row.id as int
                && b.title@ == row.title@,
            Ok(None) => r matches GetBookResponse::NotFound(m) && m@ == spec_not_found_message(
                id as int,
            ),
            Err(_) => r is InternalError,
        }),
{
    match outcome {
        Ok(Some(row)) => GetBookResponse::Found(Book { id: row.id as i64, title: row.title }),
        Ok(None) => GetBookResponse::NotFound(not_found_message(id)),
        Err(_) => GetBookResponse::InternalError,
    }
}

/// The book handler bound to the storage model: validation, insert and
/// lookup, and response mapping, end to end.
pub struct BookApi {
    pub store: BookStore,
}

impl BookApi {
    /// A handler over an empty table.
    pub fn new() -> (r: BookApi)
        ensures
            r.store.wf(),
            r.store.rows() == Seq::<(int, Seq<char>)>::empty(),
            r.store.next() == 1,
    {
        BookApi { store: BookStore::new() }
    }

    /// Creates a book. An over-long title is rejected before the table
    /// is touched; otherwise the row is inserted with the next
    /// identifier of the sequence and echoed back.
    pub fn create_book(&mut self, update: UpdateBook) -> (r: CreateBookResponse)
        requires
            old(self).store.wf(),
            old(self).store.can_assign_id(),
        ensures
            final(self).store.wf(),
            update.title@.len() > 64 ==> r is BadRequest && final(self).store == old(self).store,
            update.title@.len() <= 64 ==> ({
                &&& r matches CreateBookResponse::Created(b) && b.id as int == old(self).store.next()
                    && b.title@ == update.title@
                &&& final(self).store.rows() == spec_insert(
                    old(self).store.rows(),
                    old(self).store.next(),
                    update.title@,
                )
                &&& final(self).store.next() == old(self).store.next() + 1
            }),
    {
        if !validate_title(&update.title) {
            return CreateBookResponse::BadRequest;
        }
        let row = self.store.create(update.title);
        create_response(Ok(row))
    }

    /// Gets a book by identifier: 200 with the row when the table holds
    /// the identifier, 404 with exactly "Book {id} not found" when it
    /// does not. A 500 cannot arise from the model.
    pub fn get_book(&self, id: i64) -> (r: GetBookResponse)
        requires
            self.store.wf(),
        ensures
            (match spec_lookup(self.store.rows(), id as int) {
                Some(t) => r matches GetBookResponse::Found(b) && b.id as int == id as int
                    && b.title@ == t,
                None => r matches GetBookResponse::NotFound(m) && m@ == spec_not_found_message(
                    id as int,
                ),
            }),
    {
        let found = self.store.get(id);
        get_response(id, Ok(found))
    }
}

} // verus!
