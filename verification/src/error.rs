//! Error types

use vstd::prelude::*;

verus! {

/// What can go wrong outside the handling of a single login. Where a
/// collaborator reported the failure, its report is carried as text.
#[derive(Debug, PartialEq, Eq)]
pub enum Error {
    /// The database could not be reached.
    DatabaseOpenError(String),
    /// The pool gave no connection.
    DatabaseConnAcqError(String),
    /// A migration did not apply.
    DatabaseMigrationError(String),
    /// A query failed.
    DatabaseQueryFailed(String),
    /// The listening port could not be bound.
    HttpBindFailed(String),
    /// The provider's discovery documents could not be had or read. Fatal:
    /// the service must not start.
    DiscoverOidcFailed,
    /// Every candidate for a new address was already taken.
    NameCollisionLimit,
}

impl Error {
    /// The text that describes each kind of error.
    pub open spec fn message_text(self) -> Seq<char> {
        match self {
            Error::DatabaseOpenError(_) => "Cannot connect to database database"@,
            Error::DatabaseConnAcqError(_) =>
                "Could not acquire a connection from the connection pool"@,
            Error::DatabaseMigrationError(_) => "Database migration failed"@,
            Error::DatabaseQueryFailed(_) => "Database query failed"@,
            Error::HttpBindFailed(_) => "Could not bind port for http server"@,
            Error::DiscoverOidcFailed => "Could not discover openid client information"@,
            Error::NameCollisionLimit => "Could not find an unused address"@,
        }
    }

    /// The error in words.
    pub fn message(&self) -> (text: String)
        ensures
            text@ == self.message_text(),
    {
        match self {
            Error::DatabaseOpenError(_) => "Cannot connect to database database".to_owned(),
            Error::DatabaseConnAcqError(_) =>
                "Could not acquire a connection from the connection pool".to_owned(),
            Error::DatabaseMigrationError(_) => "Database migration failed".to_owned(),
            Error::DatabaseQueryFailed(_) => "Database query failed".to_owned(),
            Error::HttpBindFailed(_) => "Could not bind port for http server".to_owned(),
            Error::DiscoverOidcFailed => "Could not discover openid client information".to_owned(),
            Error::NameCollisionLimit => "Could not find an unused address".to_owned(),
        }
    }

    /// What the collaborator reported, where one did.
    pub fn source(&self) -> (detail: Option<&String>)
        ensures
            detail == match *self {
                Error::DatabaseOpenError(d) => Some(&d),
                Error::DatabaseConnAcqError(d) => Some(&d),
                Error::DatabaseMigrationError(d) => Some(&d),
                Error::DatabaseQueryFailed(d) => Some(&d),
                Error::HttpBindFailed(d) => Some(&d),
                Error::DiscoverOidcFailed => None,
                Error::NameCollisionLimit => None,
            },
    {
        match self {
            Error::DatabaseOpenError(d) => Some(d),
            Error::DatabaseConnAcqError(d) => Some(d),
            Error::DatabaseMigrationError(d) => Some(d),
            Error::DatabaseQueryFailed(d) => Some(d),
            Error::HttpBindFailed(d) => Some(d),
            Error::DiscoverOidcFailed => None,
            Error::NameCollisionLimit => None,
        }
    }
}

} // verus!
