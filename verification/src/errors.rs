//! The failure taxonomy of the data-access layer. Every operation
//! surfaces its error verbatim to the immediate caller; nothing is
//! retried or swallowed here.

use vstd::prelude::*;

verus! {

/// Everything that can go wrong in this layer.
#[derive(Debug)]
pub enum SDKError {
    /// The pool could not hand out a connection before its deadline.
    PoolTimeout,
    /// A schema migration failed; treated as fatal at startup.
    MigrationError(String),
    /// The configuration carries no embedded build version string.
    VersionNotFound,
    /// The reserved settings row already exists for the owning actor.
    DuplicateTenant,
    /// An input could not be serialized before being stored.
    SerializationError(String),
    /// Any other failure reported by the database driver, including a
    /// rejected statement or a constraint violation.
    QueryError(String),
}

impl SDKError {
    /// A short, stable description of the error kind.
    pub fn kind(&self) -> (r: &'static str)
        ensures
            r@ == spec_error_kind(*self),
    {
        match self {
            SDKError::PoolTimeout => "pool timeout",
            SDKError::MigrationError(_) => "migration error",
            SDKError::VersionNotFound => "version not found",
            SDKError::DuplicateTenant => "duplicate tenant",
            SDKError::SerializationError(_) => "serialization error",
            SDKError::QueryError(_) => "query error",
        }
    }
}

/// The description `SDKError::kind` returns for each variant.
pub open spec fn spec_error_kind(e: SDKError) -> Seq<char> {
    match e {
        SDKError::PoolTimeout => "pool timeout"@,
        SDKError::MigrationError(_) => "migration error"@,
        SDKError::VersionNotFound => "version not found"@,
        SDKError::DuplicateTenant => "duplicate tenant"@,
        SDKError::SerializationError(_) => "serialization error"@,
        SDKError::QueryError(_) => "query error"@,
    }
}

} // verus!
