//! The resource handlers: book and user.

pub mod book;
pub mod users;
