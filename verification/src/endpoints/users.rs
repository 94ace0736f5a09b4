//! The user resource.
//!
//! Creation is deliberately an echo stub: nothing is persisted, the
//! identifier is fixed at one, and the optional fields stay empty. The
//! handler takes only `&self`, so no call can leave a trace that a later
//! call could observe.

use vstd::prelude::*;
use vstd::string::StrSliceExecFns;

verus! {

/// The user handler. It holds no state: the endpoint persists nothing.
pub struct UsersApi;

/// Wire representation of a user.
#[derive(Debug, Clone)]
pub struct User {
    pub id: i64,
    pub name: String,
    pub age: Option<i32>,
    pub email: Option<String>,
    pub password: Option<String>,
}

/// Creation request body: the name alone.
#[derive(Debug, Clone)]
pub struct UpdateUser {
    pub name: String,
}

/// The one response the endpoint can give: 200 with the echoed user.
/// No error path is reachable once the name has passed validation.
pub enum UpdateUserResponse {
    Created(User),
}

/// Boundary validation of the name: at most 64 characters. The process
/// edge rejects longer names as a client error before the handler runs.
pub fn validate_name(name: &String) -> (r: bool)
    ensures
        r == (name@.len() <= 64),
{
    name.as_str().unicode_len() <= 64
}

impl UsersApi {
    /// Echoes the request: always identifier 1, the given name, and
    /// empty age, email and password — whatever came before.
    pub fn create_user(&self, update: UpdateUser) -> (r: UpdateUserResponse)
        ensures
            (r matches UpdateUserResponse::Created(u) && u.id == 1i64 && u.name@ == update.name@
                && u.age is None && u.email is None && u.password is None),
    {
        UpdateUserResponse::Created(
            User { id: 1, name: update.name, age: None, email: None, password: None },
        )
    }
}

} // verus!
