//! The persisted row shape of the `book` table.

use vstd::prelude::*;

verus! {

/// A row of the `book` table: a server-assigned identifier and a title.
/// The database assigns `id` from a 32-bit sequence; the wire
/// representation widens it to 64 bits.
#[derive(Debug)]
pub struct Book {
    pub id: i32,
    pub title: String,
}

} // verus!
