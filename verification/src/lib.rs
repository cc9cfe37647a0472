//! Connection-management core of a database-access layer: a capability
//! contract for talking to a relational store, a statement cache that
//! amortizes query preparation, and nested-transaction emulation built on
//! savepoints, implemented against an embedded SQL engine.

use vstd::prelude::*;

pub mod connection;
pub mod errors;
pub mod query_builder;
pub mod query_logger;
pub mod raw_connection;
pub mod sqlite_connection;
pub mod statement_cache;
pub mod transaction_manager;

verus! {

/// Observer of native-layer error codes. The embedding application decides
/// where a hook is stored and when it fires; the library only defines the
/// capability.
pub trait ErrorHook {
    fn on_error(&self, code: i32);
}

} // verus!
