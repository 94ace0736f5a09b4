//! Process configuration: a single required database connection string.
//!
//! Reading the process environment is I/O and stays outside the library;
//! whoever starts the process reads the variable, fails fast when it is
//! absent, and hands the string in here.

use vstd::prelude::*;

verus! {

/// The one setting the service needs.
pub struct Config {
    pub database_url: String,
}

impl Config {
    /// Constructor injection of the connection string: handlers receive
    /// the resulting handle, never a hidden global.
    pub fn new(database_url: String) -> (r: Config)
        ensures
            r.database_url@ == database_url@,
    {
        Config { database_url }
    }
}

} // verus!
