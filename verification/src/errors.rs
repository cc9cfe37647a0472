//! Error taxonomy: connection-time failures, query-time failures with a
//! distinguished kind for failed re-encryption, and the sentinel rollback
//! signal that forces a transaction scope to abort intentionally.

use vstd::prelude::*;

verus! {

/// The distinguished kinds of native-layer execution failures.
#[derive(Clone, Copy, Debug, PartialEq, Eq, Structural)]
pub enum DatabaseErrorKind {
    UniqueViolation,
    ForeignKeyViolation,
    UnableToReEncrypt,
    SerializationFailure,
    Unknown,
}

/// A query-time failure. `RollbackTransaction` is control-only: it means
/// "abort this transaction scope intentionally" and is never a native error.
#[derive(Clone, Debug)]
pub enum QueryError {
    DatabaseError(DatabaseErrorKind, String),
    RollbackTransaction,
}

pub type QueryResult<T> = Result<T, QueryError>;

/// An establish-time failure: the store could not be opened or keyed.
#[derive(Clone, Debug)]
pub enum ConnectionError {
    BadConnection(String),
}

pub type ConnectionResult<T> = Result<T, ConnectionError>;

/// Code and text of a native-layer failure, as plain values.
pub struct ErrorInfo {
    pub code: i32,
    pub message: String,
}

impl PartialEq for QueryError {
    fn eq(&self, other: &QueryError) -> (r: bool) {
        match (self, other) {
            (QueryError::DatabaseError(k1, m1), QueryError::DatabaseError(k2, m2)) => {
                *k1 == *k2 && *m1 == *m2
            },
            (QueryError::RollbackTransaction, QueryError::RollbackTransaction) => true,
            _ => false,
        }
    }
}

impl vstd::std_specs::cmp::PartialEqSpecImpl for QueryError {
    open spec fn obeys_eq_spec() -> bool {
        true
    }

    open spec fn eq_spec(&self, other: &QueryError) -> bool {
        match (self, other) {
            (QueryError::DatabaseError(k1, m1), QueryError::DatabaseError(k2, m2)) => {
                k1 == k2 && m1@ == m2@
            },
            (QueryError::RollbackTransaction, QueryError::RollbackTransaction) => true,
            _ => false,
        }
    }
}

/// Every native-layer failure surfaces as a `DatabaseError` of some kind;
/// a failure nothing more is known about carries the `Unknown` kind and the
/// native message.
pub fn error_from_info(info: ErrorInfo) -> (e: QueryError)
    ensures
        e == QueryError::DatabaseError(DatabaseErrorKind::Unknown, info.message),
{
    QueryError::DatabaseError(DatabaseErrorKind::Unknown, info.message)
}

} // verus!
