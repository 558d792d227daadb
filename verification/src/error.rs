//! The ways in which an operation of the registry fails.

use vstd::prelude::*;

verus! {

/// Why an operation failed.
///
/// `Config` and `Connect` arise while the connection pool is set up, before
/// any request is served. `Pool` and `Query` arise while one request is
/// handled and concern that request only.
#[derive(Clone, Copy, Debug, PartialEq, Eq, Structural)]
pub enum RegistryError {
    /// The connection string is missing or malformed.
    Config,
    /// The database could not be reached or opened.
    Connect,
    /// No connection could be acquired from the pool.
    Pool,
    /// The statement could not be executed.
    Query,
}

impl RegistryError {
    /// Whether the error belongs to start-up: the process must not begin to
    /// serve after one of these.
    pub open spec fn fatal(self) -> bool {
        self == RegistryError::Config || self == RegistryError::Connect
    }

    /// The message shown to a person for this error.
    pub open spec fn text(self) -> Seq<char> {
        match self {
            RegistryError::Config => "DATABASE_URL is not set or is malformed"@,
            RegistryError::Connect => "Couldn't create sqlite pool!"@,
            RegistryError::Pool => "Couldn't acquire connection from the pool"@,
            RegistryError::Query => "Couldn't execute sql query!"@,
        }
    }

    /// Tells the start-up errors from those of a single request.
    pub fn is_fatal(&self) -> (r: bool)
        ensures
            r == self.fatal(),
    {
        match self {
            RegistryError::Config => true,
            RegistryError::Connect => true,
            RegistryError::Pool => false,
            RegistryError::Query => false,
        }
    }

    /// The human-readable message for this error.
    pub fn message(&self) -> (r: &'static str)
        ensures
            r@ == self.text(),
    {
        match self {
            RegistryError::Config => "DATABASE_URL is not set or is malformed",
            RegistryError::Connect => "Couldn't create sqlite pool!",
            RegistryError::Pool => "Couldn't acquire connection from the pool",
            RegistryError::Query => "Couldn't execute sql query!",
        }
    }
}

} // verus!
