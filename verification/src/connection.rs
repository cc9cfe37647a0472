//! The backend-agnostic capability contract for talking to a relational
//! store, and the connection configuration: an immutable snapshot built
//! once through a builder and consumed when a connection is established.

use vstd::prelude::*;
use crate::errors::{ConnectionResult, QueryResult};
use crate::query_builder::SelectStatement;

verus! {

/// Performs simple operations on a backend. The contract is stated over
/// the session's command history: a successful batch appends its text, a
/// failed one leaves the session as it was.
pub trait SimpleConnection {
    /// The SQL commands this session has executed, oldest first.
    spec fn sc_history(&self) -> Seq<Seq<char>>;

    /// The session's internal invariant.
    spec fn sc_wf(&self) -> bool;

    /// Executes multiple SQL statements within the same string, typically
    /// for migrations.
    fn batch_execute(&mut self, query: &str) -> (r: QueryResult<()>)
        requires
            old(self).sc_wf(),
        ensures
            final(self).sc_wf(),
            r is Ok ==> final(self).sc_history() == old(self).sc_history().push(query@),
            r is Err ==> final(self).sc_history() == old(self).sc_history(),
    ;
}

/// Performs connections to a backend: establishing a session and running
/// queries through it. Each operation preserves the session invariant and
/// the open transaction scopes.
pub trait BackendConnection: SimpleConnection + Sized {
    /// The number of transaction scopes open right now.
    spec fn conn_depth(&self) -> u32;

    /// The query fingerprints held by the statement cache.
    spec fn conn_cache_keys(&self) -> Seq<Seq<char>>;

    /// Establishes a new connection to the database at the given URL; a
    /// fresh session has an empty cache, an empty history and no open
    /// transaction.
    fn establish(database_url: &str, config: Config) -> (r: ConnectionResult<Self>)
        ensures
            r matches Ok(c) ==> c.sc_wf() && c.conn_depth() == 0 && c.conn_cache_keys()
                == Seq::<Seq<char>>::empty() && c.sc_history() == Seq::<Seq<char>>::empty(),
    ;

    /// The thin single-statement path: executes `query` and reports the
    /// rows affected as the native layer counts them.
    fn execute(&mut self, query: &str) -> (r: QueryResult<usize>)
        requires
            old(self).sc_wf(),
        ensures
            final(self).sc_wf(),
            final(self).conn_depth() == old(self).conn_depth(),
            final(self).conn_cache_keys() == old(self).conn_cache_keys(),
    ;

    /// Executes a query and produces its rows, each column as text.
    fn query_by_index(&mut self, source: &SelectStatement) -> (r: QueryResult<
        Vec<Vec<Option<String>>>,
    >)
        requires
            old(self).sc_wf(),
        ensures
            final(self).sc_wf(),
            final(self).conn_depth() == old(self).conn_depth(),
    ;

    /// Executes a query through the same preparation path but discards
    /// rows, reporting only the affected-row count.
    fn execute_returning_count(&mut self, source: &SelectStatement) -> (r: QueryResult<usize>)
        requires
            old(self).sc_wf(),
        ensures
            final(self).sc_wf(),
            final(self).conn_depth() == old(self).conn_depth(),
    ;
}

/// Options recognized when establishing a connection: an optional at-rest
/// encryption key, per-query timing logs, and per-query plan capture.
#[derive(Debug, Clone)]
pub struct Config {
    pub password: Option<String>,
    pub is_log_query: bool,
    pub is_explain_query: bool,
}

/// The configuration every connection starts from: no encryption key and
/// both instrumentation switches off.
pub open spec fn spec_default_config() -> Config {
    Config { password: None, is_log_query: false, is_explain_query: false }
}

impl Config {
    pub fn builder() -> (b: ConfigBuilder)
        ensures
            b.spec_config() == spec_default_config(),
    {
        ConfigBuilder::default()
    }
}

impl Default for Config {
    fn default() -> (c: Config)
        ensures
            c == spec_default_config(),
    {
        Config { password: None, is_log_query: false, is_explain_query: false }
    }
}

/// Builds a `Config` field by field, starting from the default.
#[derive(Debug)]
pub struct ConfigBuilder {
    config: Config,
}

impl ConfigBuilder {
    /// The configuration as accumulated so far.
    pub closed spec fn spec_config(&self) -> Config {
        self.config
    }

    /// The password for this database; defaults to `None`.
    pub fn password(self, password: &str) -> (b: Self)
        ensures
            b.spec_config().password matches Some(p) && p@ == password@,
            b.spec_config().is_log_query == self.spec_config().is_log_query,
            b.spec_config().is_explain_query == self.spec_config().is_explain_query,
    {
        let mut s = self;
        s.config.password = Some(password.to_owned());
        s
    }

    /// Whether to log query text and time cost for every execution; defaults
    /// to `false`.
    pub fn is_log_query(self, is_log_query: bool) -> (b: Self)
        ensures
            b.spec_config().is_log_query == is_log_query,
            b.spec_config().password == self.spec_config().password,
            b.spec_config().is_explain_query == self.spec_config().is_explain_query,
    {
        let mut s = self;
        s.config.is_log_query = is_log_query;
        s
    }

    /// Whether to capture a plan for every query; defaults to `false`.
    pub fn is_explain_query(self, is_explain_query: bool) -> (b: Self)
        ensures
            b.spec_config().is_explain_query == is_explain_query,
            b.spec_config().password == self.spec_config().password,
            b.spec_config().is_log_query == self.spec_config().is_log_query,
    {
        let mut s = self;
        s.config.is_explain_query = is_explain_query;
        s
    }

    pub fn build(self) -> (c: Config)
        ensures
            c == self.spec_config(),
    {
        self.config
    }
}

impl Default for ConfigBuilder {
    fn default() -> (b: ConfigBuilder)
        ensures
            b.spec_config() == spec_default_config(),
    {
        ConfigBuilder { config: Config::default() }
    }
}

} // verus!
