//! A small book-and-user service, verified.
//!
//! The library holds everything the service decides: input validation,
//! the storage model for books with its invariant, the mapping from
//! database outcomes to typed HTTP responses, and the ordering of schema
//! migrations. The surrounding process (listener, connection pool, JSON
//! framing) lives outside the library and hands it plain values.

pub mod config;
pub mod endpoints;
pub mod migrate;
pub mod models;
pub mod store;
pub mod text;

use vstd::prelude::*;

verus! {

/// The front-door handler: the root path answers with a fixed greeting,
/// usable as a liveness probe. It touches no other component, so the
/// answer cannot depend on database availability.
pub struct Api;

impl Api {
    /// Always returns exactly "Hello World".
    pub fn index(&self) -> (r: &'static str)
        ensures
            r@ == "Hello World"@,
    {
        "Hello World"
    }
}

} // verus!
