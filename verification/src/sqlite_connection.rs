//! The embedded-engine connection: exclusive owner of one native handle,
//! one statement cache and one transaction manager, together with the
//! instrumentation that observes query execution. Contracts are stated
//! over the session's command history, its transaction depth and its cache
//! fingerprints.

use vstd::prelude::*;
use crate::connection::Config;
use crate::errors::{
    ConnectionError,
    ConnectionResult,
    DatabaseErrorKind,
    QueryError,
    QueryResult,
    error_from_info,
};
use crate::query_builder::{SelectStatement, spec_select_sql, spec_cacheable, spec_binds};
use crate::query_logger::{QueryLogger, spec_probe_query, str_eq};
use crate::raw_connection::{RawConnection, error_info, error_message};
use crate::statement_cache::{MaybeCached, Statement, StatementCache, cache_after};
use crate::transaction_manager::{
    AnsiTransactionManager,
    spec_begin_command,
    spec_commit_command,
    spec_rollback_command,
};

verus! {

/// The generic native failure code, used where the engine rejected an
/// operation without carrying a more specific code.
pub const GENERIC_ERROR_CODE: i32 = 1;

/// One live session against the embedded engine.
pub struct SqliteConnection {
    statement_cache: StatementCache,
    raw_connection: RawConnection,
    transaction_manager: AnsiTransactionManager,
    is_log_query: bool,
    is_explain_query: bool,
}

/// The command that captures a query's plan.
pub open spec fn spec_explain_command(q: Seq<char>) -> Seq<char> {
    "EXPLAIN QUERY PLAN "@ + q
}

/// Whether running `q` on connection `c` captures a plan first: the switch
/// is on and `q` is not the probe query.
pub open spec fn spec_explain_effective(c: SqliteConnection, q: Seq<char>) -> bool {
    c.explain_enabled() && q != spec_probe_query()
}

/// The two instrumentation switches are fixed at establish time.
pub open spec fn spec_same_config(a: SqliteConnection, b: SqliteConnection) -> bool {
    a.log_enabled() == b.log_enabled() && a.explain_enabled() == b.explain_enabled()
}

/// The text of one row cell; SQL NULL renders as empty text.
pub open spec fn spec_cell_text(c: Option<String>) -> Seq<char> {
    match c {
        Some(s) => s@,
        None => Seq::empty(),
    }
}

/// One row's cells joined by the delimiter.
pub open spec fn spec_join_row(row: Seq<Option<String>>, delim: Seq<char>) -> Seq<char>
    decreases row.len(),
{
    if row.len() == 0 {
        Seq::<char>::empty()
    } else if row.len() == 1 {
        spec_cell_text(row[0])
    } else {
        spec_join_row(row.drop_last(), delim) + delim + spec_cell_text(row.last())
    }
}

/// All rows, each joined by the delimiter, joined by newlines.
pub open spec fn spec_join_rows(rows: Seq<Vec<Option<String>>>, delim: Seq<char>) -> Seq<char>
    decreases rows.len(),
{
    if rows.len() == 0 {
        Seq::<char>::empty()
    } else if rows.len() == 1 {
        spec_join_row(rows[0]@, delim)
    } else {
        spec_join_rows(rows.drop_last(), delim) + seq!['\n'] + spec_join_row(rows.last()@, delim)
    }
}

/// Appends one row's cells, joined by the delimiter.
fn join_row_into(row: &Vec<Option<String>>, delimiter: &str, out: &mut String)
    ensures
        final(out)@ == old(out)@ + spec_join_row(row@, delimiter@),
{
    let n = row.len();
    let mut j: usize = 0;
    while j < n
        invariant
            j <= n,
            n == row@.len(),
            out@ == old(out)@ + spec_join_row(row@.take(j as int), delimiter@),
        decreases n - j,
    {
        if j > 0 {
            out.append(delimiter);
        }
        match &row[j] {
            Some(s) => out.append(s.as_str()),
            None => {},
        }
        proof {
            let taken = row@.take(j + 1 as int);
            assert(taken.drop_last() =~= row@.take(j as int));
            assert(taken.last() == row@[j as int]);
            assert(out@ =~= old(out)@ + spec_join_row(row@.take(j + 1 as int), delimiter@));
        }
        j = j + 1;
    }
    proof {
        assert(row@.take(n as int) =~= row@);
    }
}

/// Joins query output into one text: cells of a row separated by the
/// delimiter, rows separated by newlines.
pub fn join_rows(rows: &Vec<Vec<Option<String>>>, delimiter: &str) -> (s: String)
    ensures
        s@ == spec_join_rows(rows@, delimiter@),
{
    let mut out = String::new();
    let n = rows.len();
    let mut i: usize = 0;
    while i < n
        invariant
            i <= n,
            n == rows@.len(),
            out@ == spec_join_rows(rows@.take(i as int), delimiter@),
        decreases n - i,
    {
        if i > 0 {
            out.append("\n");
            proof {
                reveal_strlit("\n");
                assert("\n"@ =~= seq!['\n']);
            }
        }
        join_row_into(&rows[i], delimiter, &mut out);
        proof {
            let taken = rows@.take(i + 1 as int);
            assert(taken.drop_last() =~= rows@.take(i as int));
            assert(taken.last() == rows@[i as int]);
            assert(out@ =~= spec_join_rows(rows@.take(i + 1 as int), delimiter@));
        }
        i = i + 1;
    }
    proof {
        assert(rows@.take(n as int) =~= rows@);
    }
    out
}

impl SqliteConnection {
    /// The SQL commands this session has executed, oldest first.
    pub closed spec fn history(&self) -> Seq<Seq<char>> {
        self.raw_connection.history()
    }

    /// The number of transaction scopes open right now.
    pub closed spec fn depth(&self) -> u32 {
        self.transaction_manager.spec_depth()
    }

    /// The fingerprints in the statement cache, in insertion order.
    pub closed spec fn cache_keys(&self) -> Seq<Seq<char>> {
        self.statement_cache.keys()
    }

    /// Whether per-query timing logs are on.
    pub closed spec fn log_enabled(&self) -> bool {
        self.is_log_query
    }

    /// Whether per-query plan capture is on.
    pub closed spec fn explain_enabled(&self) -> bool {
        self.is_explain_query
    }

    /// The cache never holds one fingerprint twice.
    pub closed spec fn wf(&self) -> bool {
        self.statement_cache.wf()
    }

    /// Establishes a new connection to the database at the given URL,
    /// keyed with the configured password if one is set. A fresh
    /// connection has an empty cache, an empty history and no open
    /// transaction.
    pub fn establish(database_url: &str, config: Config) -> (r: ConnectionResult<
        SqliteConnection,
    >)
        ensures
            r matches Ok(c) ==> c.wf() && c.depth() == 0 && c.cache_keys() == Seq::<
                Seq<char>,
            >::empty() && c.history() == Seq::<Seq<char>>::empty() && c.log_enabled()
                == config.is_log_query && c.explain_enabled() == config.is_explain_query,
    {
        let mut raw = match RawConnection::open(database_url) {
            Ok(raw) => raw,
            Err(e) => {
                return Err(ConnectionError::BadConnection(error_info(e).message));
            },
        };
        match &config.password {
            Some(p) => {
                match raw.apply_key(p.as_str()) {
                    Ok(()) => {},
                    Err(e) => {
                        return Err(ConnectionError::BadConnection(error_info(e).message));
                    },
                }
            },
            None => {},
        }
        Ok(
            SqliteConnection {
                statement_cache: StatementCache::new(),
                raw_connection: raw,
                transaction_manager: AnsiTransactionManager::new(),
                is_log_query: config.is_log_query,
                is_explain_query: config.is_explain_query,
            },
        )
    }

    /// Executes possibly-multiple statements in one string directly
    /// against the native handle, bypassing the cache. A success appends
    /// the text to the history; a failure surfaces as a database error and
    /// leaves the session as it was.
    pub fn batch_execute(&mut self, query: &str) -> (r: QueryResult<()>)
        requires
            old(self).wf(),
        ensures
            final(self).wf(),
            spec_same_config(*old(self), *final(self)),
            final(self).depth() == old(self).depth(),
            final(self).cache_keys() == old(self).cache_keys(),
            r is Ok ==> final(self).history() == old(self).history().push(query@),
            r is Err ==> final(self).history() == old(self).history(),
            r matches Err(e) ==> e is DatabaseError,
    {
        match self.raw_connection.exec(query) {
            Ok(()) => Ok(()),
            Err(e) => Err(error_from_info(error_info(e))),
        }
    }

    /// Executes a query and renders its result as text: cells of a row
    /// joined by `delimiter`, rows joined by newlines.
    pub fn execute_for_string(&mut self, query: &str, delimiter: &str) -> (r: QueryResult<
        String,
    >)
        requires
            old(self).wf(),
        ensures
            final(self).wf(),
            spec_same_config(*old(self), *final(self)),
            final(self).depth() == old(self).depth(),
            final(self).cache_keys() == old(self).cache_keys(),
            r is Ok ==> final(self).history() == old(self).history().push(query@),
            r is Err ==> final(self).history() == old(self).history(),
    {
        let binds: Vec<i64> = Vec::new();
        match self.raw_connection.query_rows(query, &binds) {
            Ok(rows) => Ok(join_rows(&rows, delimiter)),
            Err(e) => Err(error_from_info(error_info(e))),
        }
    }

    /// Captures the plan of `query` when plan capture is on, by running the
    /// explain command through the same execution path; the probe query
    /// and the explain command itself are exempt, so the capture cannot
    /// recurse.
    pub fn explain_query(&mut self, query: &str) -> (r: QueryResult<()>)
        requires
            old(self).wf(),
        ensures
            final(self).wf(),
            spec_same_config(*old(self), *final(self)),
            final(self).depth() == old(self).depth(),
            final(self).cache_keys() == old(self).cache_keys(),
            !spec_explain_effective(*old(self), query@) ==> r is Ok && final(self).history()
                == old(self).history(),
            spec_explain_effective(*old(self), query@) && r is Ok ==> final(self).history()
                == old(self).history().push(spec_explain_command(query@)),
            r is Err ==> final(self).history() == old(self).history(),
    {
        if str_eq(query, "SELECT 1") {
            return Ok(());
        }
        if !self.is_explain_query {
            return Ok(());
        }
        let mut explain_sql = String::new();
        explain_sql.append("EXPLAIN QUERY PLAN ");
        explain_sql.append(query);
        match self.execute_for_string(explain_sql.as_str(), "|") {
            Ok(_plan) => Ok(()),
            Err(e) => Err(e),
        }
    }

    /// The thin single-statement path: observes the query, captures its
    /// plan if asked to, executes it, and reports the rows affected as the
    /// native layer counts them.
    pub fn execute(&mut self, query: &str) -> (r: QueryResult<usize>)
        requires
            old(self).wf(),
        ensures
            final(self).wf(),
            spec_same_config(*old(self), *final(self)),
            final(self).depth() == old(self).depth(),
            final(self).cache_keys() == old(self).cache_keys(),
            r is Ok && !spec_explain_effective(*old(self), query@) ==> final(self).history()
                == old(self).history().push(query@),
            r is Ok && spec_explain_effective(*old(self), query@) ==> final(self).history()
                == old(self).history().push(spec_explain_command(query@)).push(query@),
            r is Err ==> final(self).history() == old(self).history() || final(self).history()
                == old(self).history().push(spec_explain_command(query@)),
    {
        let logger = QueryLogger::new(query, self.is_log_query);
        match self.explain_query(query) {
            Ok(()) => {},
            Err(e) => {
                let _record = logger.finish();
                return Err(e);
            },
        }
        match self.batch_execute(query) {
            Ok(()) => {},
            Err(e) => {
                let _record = logger.finish();
                return Err(e);
            },
        }
        let _record = logger.finish();
        Ok(self.raw_connection.rows_affected_by_last_query())
    }

    /// Re-keys the underlying encrypted store. When the engine rejects the
    /// operation — it was built without a codec, or the key is unusable —
    /// the distinguished unable-to-re-encrypt error kind is returned.
    pub fn change_password(&mut self, password: &str) -> (r: QueryResult<()>)
        requires
            old(self).wf(),
        ensures
            final(self).wf(),
            spec_same_config(*old(self), *final(self)),
            final(self).depth() == old(self).depth(),
            final(self).cache_keys() == old(self).cache_keys(),
            final(self).history() == old(self).history(),
            r matches Err(e) ==> e matches QueryError::DatabaseError(
                DatabaseErrorKind::UnableToReEncrypt,
                _,
            ),
    {
        let supported = match self.raw_connection.codec_compile_option() {
            Ok(v) => v != 0,
            Err(_) => false,
        };
        if !supported {
            let msg = error_message(GENERIC_ERROR_CODE);
            return Err(
                QueryError::DatabaseError(DatabaseErrorKind::UnableToReEncrypt, msg.to_owned()),
            );
        }
        match self.raw_connection.pragma_rekey(password) {
            Ok(()) => Ok(()),
            Err(e) => {
                let info = error_info(e);
                Err(QueryError::DatabaseError(DatabaseErrorKind::UnableToReEncrypt, info.message))
            },
        }
    }

    /// The transaction manager, for observing the current depth.
    pub fn transaction_manager(&self) -> (m: &AnsiTransactionManager)
        ensures
            m.spec_depth() == self.depth(),
    {
        &self.transaction_manager
    }

    /// The statement cache, for observing its entry count.
    pub fn statement_cache(&self) -> (c: &StatementCache)
        ensures
            c.keys() == self.cache_keys(),
            self.wf() ==> c.wf(),
    {
        &self.statement_cache
    }

    /// Runs `f` with notices silenced. The embedded engine emits none, so
    /// this is the identity on `f`'s behavior.
    pub fn silence_notices<T, F: FnOnce() -> T>(&self, f: F) -> (r: T)
        requires
            call_requires(f, ()),
        ensures
            call_ensures(f, (), r),
    {
        f()
    }

    /// Supplies the statement for one execution of `source`: the cached
    /// one on a fingerprint hit; a freshly prepared one, inserted, on a
    /// miss of a cacheable shape; a freshly prepared one owned by this
    /// call alone when the shape is not cacheable.
    fn cached_prepared_statement(&mut self, source: &SelectStatement) -> (r: QueryResult<
        MaybeCached,
    >)
        requires
            old(self).wf(),
        ensures
            final(self).wf(),
            spec_same_config(*old(self), *final(self)),
            final(self).depth() == old(self).depth(),
            final(self).history() == old(self).history(),
            r is Ok ==> final(self).cache_keys() == cache_after(
                old(self).cache_keys(),
                spec_select_sql(*source),
                spec_cacheable(source.selection),
            ),
            r matches Ok(h) ==> spec_handle_for(*final(self), h, *source),
            r is Err ==> final(self).cache_keys() == old(self).cache_keys(),
    {
        let sql = source.to_sql();
        if !source.is_safe_to_cache() {
            match self.raw_connection.prepare_validate(sql.as_str()) {
                Ok(()) => Ok(MaybeCached::CannotCache(Statement { sql })),
                Err(e) => Err(error_from_info(error_info(e))),
            }
        } else {
            match self.statement_cache.position(&sql) {
                Some(i) => Ok(MaybeCached::Cached(i)),
                None => {
                    match self.raw_connection.prepare_validate(sql.as_str()) {
                        Ok(()) => {
                            let i = self.statement_cache.insert(Statement { sql });
                            Ok(MaybeCached::Cached(i))
                        },
                        Err(e) => Err(error_from_info(error_info(e))),
                    }
                },
            }
        }
    }

    /// Obtains the statement for `source` — cached or fresh — and collects
    /// its bind parameters in rendering order.
    fn prepare_query(&mut self, source: &SelectStatement) -> (r: QueryResult<
        (MaybeCached, Vec<i64>),
    >)
        requires
            old(self).wf(),
        ensures
            final(self).wf(),
            spec_same_config(*old(self), *final(self)),
            final(self).depth() == old(self).depth(),
            final(self).history() == old(self).history(),
            r is Ok ==> final(self).cache_keys() == cache_after(
                old(self).cache_keys(),
                spec_select_sql(*source),
                spec_cacheable(source.selection),
            ),
            r matches Ok(p) ==> spec_handle_for(*final(self), p.0, *source) && p.1@ == spec_binds(
                source.selection,
            ),
            r is Err ==> final(self).cache_keys() == old(self).cache_keys(),
    {
        match self.cached_prepared_statement(source) {
            Ok(handle) => Ok((handle, source.collect_binds())),
            Err(e) => Err(e),
        }
    }

    /// Renders `source` to its SQL text and captures its plan if asked
    /// to, handing the text back for the timing logger.
    fn construct_and_explain_query(&mut self, source: &SelectStatement) -> (r: QueryResult<
        String,
    >)
        requires
            old(self).wf(),
        ensures
            final(self).wf(),
            spec_same_config(*old(self), *final(self)),
            final(self).depth() == old(self).depth(),
            final(self).cache_keys() == old(self).cache_keys(),
            r matches Ok(q) ==> q@ == spec_select_sql(*source),
            !spec_explain_effective(*old(self), spec_select_sql(*source)) ==> r is Ok && final(self).history() == old(self).history(),
            spec_explain_effective(*old(self), spec_select_sql(*source)) && r is Ok ==> final(self).history() == old(self).history().push(
                spec_explain_command(spec_select_sql(*source)),
            ),
            r is Err ==> final(self).history() == old(self).history(),
    {
        let query = source.to_sql();
        match self.explain_query(query.as_str()) {
            Ok(()) => Ok(query),
            Err(e) => Err(e),
        }
    }

    /// Executes `source` and produces its rows, each column as text. The
    /// statement comes from the cache exactly as the cacheability policy
    /// says; instrumentation fires before execution.
    pub fn query_by_index(&mut self, source: &SelectStatement) -> (r: QueryResult<
        Vec<Vec<Option<String>>>,
    >)
        requires
            old(self).wf(),
        ensures
            final(self).wf(),
            spec_same_config(*old(self), *final(self)),
            final(self).depth() == old(self).depth(),
            r is Ok ==> final(self).cache_keys() == cache_after(
                old(self).cache_keys(),
                spec_select_sql(*source),
                spec_cacheable(source.selection),
            ),
            r is Ok && !spec_explain_effective(*old(self), spec_select_sql(*source)) ==> final(self).history() == old(self).history().push(spec_select_sql(*source)),
            r is Ok && spec_explain_effective(*old(self), spec_select_sql(*source)) ==> final(self).history() == old(self).history().push(
                spec_explain_command(spec_select_sql(*source)),
            ).push(spec_select_sql(*source)),
            r is Err ==> final(self).cache_keys() == old(self).cache_keys() || final(self).cache_keys() == cache_after(
                old(self).cache_keys(),
                spec_select_sql(*source),
                spec_cacheable(source.selection),
            ),
    {
        let prepared = match self.prepare_query(source) {
            Ok(p) => p,
            Err(e) => {
                return Err(e);
            },
        };
        if self.is_log_query || self.is_explain_query {
            match self.construct_and_explain_query(source) {
                Ok(query) => {
                    let logger = QueryLogger::new(query.as_str(), self.is_log_query);
                    let _record = logger.finish();
                },
                Err(e) => {
                    return Err(e);
                },
            }
        }
        let (handle, binds) = prepared;
        let outcome = match &handle {
            MaybeCached::CannotCache(st) => self.raw_connection.query_rows(st.sql.as_str(), &binds),
            MaybeCached::Cached(i) => {
                let sql = self.statement_cache.statement_sql(*i);
                self.raw_connection.query_rows(sql.as_str(), &binds)
            },
        };
        match outcome {
            Ok(rows) => Ok(rows),
            Err(e) => Err(error_from_info(error_info(e))),
        }
    }

    /// Executes `source` through the same preparation path but discards
    /// rows, reporting only the affected-row count as the native layer
    /// counts it.
    pub fn execute_returning_count(&mut self, source: &SelectStatement) -> (r: QueryResult<
        usize,
    >)
        requires
            old(self).wf(),
        ensures
            final(self).wf(),
            spec_same_config(*old(self), *final(self)),
            final(self).depth() == old(self).depth(),
            r is Ok ==> final(self).cache_keys() == cache_after(
                old(self).cache_keys(),
                spec_select_sql(*source),
                spec_cacheable(source.selection),
            ),
            r is Ok && !spec_explain_effective(*old(self), spec_select_sql(*source)) ==> final(self).history() == old(self).history().push(spec_select_sql(*source)),
            r is Ok && spec_explain_effective(*old(self), spec_select_sql(*source)) ==> final(self).history() == old(self).history().push(
                spec_explain_command(spec_select_sql(*source)),
            ).push(spec_select_sql(*source)),
            r is Err ==> final(self).cache_keys() == old(self).cache_keys() || final(self).cache_keys() == cache_after(
                old(self).cache_keys(),
                spec_select_sql(*source),
                spec_cacheable(source.selection),
            ),
    {
        let prepared = match self.prepare_query(source) {
            Ok(p) => p,
            Err(e) => {
                return Err(e);
            },
        };
        if self.is_log_query || self.is_explain_query {
            match self.construct_and_explain_query(source) {
                Ok(query) => {
                    let logger = QueryLogger::new(query.as_str(), self.is_log_query);
                    let _record = logger.finish();
                },
                Err(e) => {
                    return Err(e);
                },
            }
        }
        let (handle, binds) = prepared;
        let outcome = match &handle {
            MaybeCached::CannotCache(st) => self.raw_connection.run_with_binds(
                st.sql.as_str(),
                &binds,
            ),
            MaybeCached::Cached(i) => {
                let sql = self.statement_cache.statement_sql(*i);
                self.raw_connection.run_with_binds(sql.as_str(), &binds)
            },
        };
        match outcome {
            Ok(_ran) => Ok(self.raw_connection.rows_affected_by_last_query()),
            Err(e) => Err(error_from_info(error_info(e))),
        }
    }
}

/// What a statement handle is good for: a cache-owned handle names a slot
/// holding this query's fingerprint; a call-owned one carries the rendered
/// SQL itself, and exists only because the shape is not cacheable.
pub open spec fn spec_handle_for(c: SqliteConnection, h: MaybeCached, q: SelectStatement) -> bool {
    match h {
        MaybeCached::CannotCache(st) => !spec_cacheable(q.selection) && st.sql@ == spec_select_sql(
            q,
        ),
        MaybeCached::Cached(i) => spec_cacheable(q.selection) && i < c.cache_keys().len()
            && c.cache_keys()[i as int] == spec_select_sql(q),
    }
}

impl crate::connection::SimpleConnection for SqliteConnection {
    open spec fn sc_history(&self) -> Seq<Seq<char>> {
        self.history()
    }

    open spec fn sc_wf(&self) -> bool {
        self.wf()
    }

    fn batch_execute(&mut self, query: &str) -> (r: QueryResult<()>) {
        self.batch_execute(query)
    }
}

impl crate::connection::BackendConnection for SqliteConnection {
    open spec fn conn_depth(&self) -> u32 {
        self.depth()
    }

    open spec fn conn_cache_keys(&self) -> Seq<Seq<char>> {
        self.cache_keys()
    }

    fn establish(database_url: &str, config: Config) -> (r: ConnectionResult<Self>) {
        SqliteConnection::establish(database_url, config)
    }

    fn execute(&mut self, query: &str) -> (r: QueryResult<usize>) {
        self.execute(query)
    }

    fn query_by_index(&mut self, source: &SelectStatement) -> (r: QueryResult<
        Vec<Vec<Option<String>>>,
    >) {
        self.query_by_index(source)
    }

    fn execute_returning_count(&mut self, source: &SelectStatement) -> (r: QueryResult<usize>) {
        self.execute_returning_count(source)
    }
}

/// A transaction scope opened at depth `d0` over history `h0` was closed
/// by a commit: the first new command opened the scope, the last one
/// committed or released it, and everything in between came from the body.
pub open spec fn spec_committed_once(h0: Seq<Seq<char>>, h: Seq<Seq<char>>, d0: u32) -> bool {
    &&& h.len() >= h0.len() + 2
    &&& h0.is_prefix_of(h)
    &&& h[h0.len() as int] == spec_begin_command(d0)
    &&& h.last() == spec_commit_command((d0 + 1) as u32)
}

/// A transaction scope opened at depth `d0` over history `h0` was closed
/// by a rollback.
pub open spec fn spec_rolled_back_once(h0: Seq<Seq<char>>, h: Seq<Seq<char>>, d0: u32) -> bool {
    &&& h.len() >= h0.len() + 2
    &&& h0.is_prefix_of(h)
    &&& h[h0.len() as int] == spec_begin_command(d0)
    &&& h.last() == spec_rollback_command((d0 + 1) as u32)
}

proof fn lemma_prefix_refl(a: Seq<Seq<char>>)
    ensures
        a.is_prefix_of(a),
{
    assert(a.subrange(0, a.len() as int) =~= a);
}

proof fn lemma_prefix_push(a: Seq<Seq<char>>, b: Seq<Seq<char>>, x: Seq<char>)
    requires
        a.is_prefix_of(b),
    ensures
        a.is_prefix_of(b.push(x)),
{
    assert(b.push(x).subrange(0, a.len() as int) =~= b.subrange(0, a.len() as int));
}

/// The work one `transaction` call runs between opening and closing its
/// scope. A body leaves the nesting depth as it found it — any scope it
/// opens, it closes — keeps the session well formed, does not flip the
/// instrumentation switches, and only appends to the command history.
pub trait TransactionBody<T> {
    fn run(&mut self, conn: &mut SqliteConnection) -> (r: QueryResult<T>)
        requires
            old(conn).wf(),
        ensures
            final(conn).wf(),
            final(conn).depth() == old(conn).depth(),
            spec_same_config(*old(conn), *final(conn)),
            old(conn).history().is_prefix_of(final(conn).history()),
    ;
}

/// A transaction body that runs a fixed list of SQL statements in order,
/// stopping at the first failure.
pub struct SqlBatchBody {
    pub statements: Vec<String>,
}

impl TransactionBody<()> for SqlBatchBody {
    fn run(&mut self, conn: &mut SqliteConnection) -> (r: QueryResult<()>) {
        let n = self.statements.len();
        let mut i: usize = 0;
        proof {
            lemma_prefix_refl(old(conn).history());
        }
        while i < n
            invariant
                conn.wf(),
                conn.depth() == old(conn).depth(),
                spec_same_config(*old(conn), *conn),
                old(conn).history().is_prefix_of(conn.history()),
                n == self.statements.len(),
            decreases n - i,
        {
            let ghost pre = conn.history();
            match conn.batch_execute(self.statements[i].as_str()) {
                Ok(()) => {
                    proof {
                        lemma_prefix_push(
                            old(conn).history(),
                            pre,
                            self.statements[i as int]@,
                        );
                    }
                },
                Err(e) => {
                    return Err(e);
                },
            }
            i = i + 1;
        }
        Ok(())
    }
}

impl SqliteConnection {
    /// Executes `body` inside a database transaction. When a transaction
    /// is already open, a savepoint emulates the nested scope. A body that
    /// returns `Ok` is committed exactly once; one that returns `Err` is
    /// rolled back exactly once and its error propagates unchanged. Only
    /// when the closing command itself fails does the scope stay open, at
    /// one level above the entry depth, and that failure is what
    /// surfaces.
    pub fn transaction<T, B: TransactionBody<T>>(&mut self, body: &mut B) -> (r: QueryResult<T>)
        requires
            old(self).wf(),
            old(self).depth() < u32::MAX,
        ensures
            final(self).wf(),
            spec_same_config(*old(self), *final(self)),
            old(self).history().is_prefix_of(final(self).history()),
            r is Ok ==> final(self).depth() == old(self).depth() && spec_committed_once(
                old(self).history(),
                final(self).history(),
                old(self).depth(),
            ),
            r is Err ==> (final(self).depth() == old(self).depth() && (final(self).history()
                == old(self).history() || spec_rolled_back_once(
                old(self).history(),
                final(self).history(),
                old(self).depth(),
            ))) || final(self).depth() == old(self).depth() + 1,
    {
        let ghost h0 = self.history();
        let ghost d0 = self.depth();
        match self.transaction_manager.begin_transaction(&mut self.raw_connection) {
            Ok(()) => {},
            Err(e) => {
                proof {
                    lemma_prefix_refl(h0);
                }
                return Err(e);
            },
        }
        let ghost h1 = self.history();
        proof {
            lemma_prefix_push(h0, h0, spec_begin_command(d0));
        }
        let r = body.run(self);
        let ghost h2 = self.history();
        proof {
            assert(h2.subrange(0, h1.len() as int) =~= h1);
            assert(h1[h0.len() as int] == spec_begin_command(d0));
            assert(h2.subrange(0, h1.len() as int)[h0.len() as int] == h2[h0.len() as int]);
            assert(h2[h0.len() as int] == spec_begin_command(d0));
            assert(h0.is_prefix_of(h2)) by {
                assert(h2.subrange(0, h0.len() as int) =~= h1.subrange(0, h0.len() as int));
            }
        }
        match r {
            Ok(value) => {
                match self.transaction_manager.commit_transaction(&mut self.raw_connection) {
                    Ok(()) => {
                        proof {
                            lemma_prefix_push(h0, h2, spec_commit_command((d0 + 1) as u32));
                        }
                        Ok(value)
                    },
                    Err(e) => Err(e),
                }
            },
            Err(e) => {
                match self.transaction_manager.rollback_transaction(&mut self.raw_connection) {
                    Ok(()) => {
                        proof {
                            lemma_prefix_push(h0, h2, spec_rollback_command((d0 + 1) as u32));
                        }
                        Err(e)
                    },
                    Err(e2) => Err(e2),
                }
            },
        }
    }

    /// Opens a transaction that is intended never to be committed — for
    /// tests only. It must not be called inside an open transaction: the
    /// depth is required to be exactly zero.
    pub fn begin_test_transaction(&mut self) -> (r: QueryResult<()>)
        requires
            old(self).wf(),
            old(self).depth() == 0,
        ensures
            final(self).wf(),
            spec_same_config(*old(self), *final(self)),
            final(self).cache_keys() == old(self).cache_keys(),
            r is Ok ==> final(self).depth() == 1 && final(self).history() == old(
                self,
            ).history().push(spec_begin_command(0)),
            r is Err ==> final(self).depth() == 0 && final(self).history() == old(self).history(),
    {
        self.transaction_manager.begin_transaction(&mut self.raw_connection)
    }

    /// Runs `body` inside a transaction that is always rolled back,
    /// whatever the body's outcome, and hands the body's outcome through.
    /// A failure to open or to roll back the scope surfaces in place of
    /// the outcome.
    pub fn test_transaction<T, B: TransactionBody<T>>(&mut self, body: &mut B) -> (r: QueryResult<
        T,
    >)
        requires
            old(self).wf(),
            old(self).depth() < u32::MAX,
        ensures
            final(self).wf(),
            spec_same_config(*old(self), *final(self)),
            old(self).history().is_prefix_of(final(self).history()),
            final(self).depth() == old(self).depth() || final(self).depth() == old(self).depth()
                + 1,
            r is Ok ==> final(self).depth() == old(self).depth() && spec_rolled_back_once(
                old(self).history(),
                final(self).history(),
                old(self).depth(),
            ),
    {
        let ghost h0 = self.history();
        let ghost d0 = self.depth();
        match self.transaction_manager.begin_transaction(&mut self.raw_connection) {
            Ok(()) => {},
            Err(e) => {
                proof {
                    lemma_prefix_refl(h0);
                }
                return Err(e);
            },
        }
        let ghost h1 = self.history();
        proof {
            lemma_prefix_push(h0, h0, spec_begin_command(d0));
        }
        let r = body.run(self);
        let ghost h2 = self.history();
        proof {
            assert(h2.subrange(0, h1.len() as int) =~= h1);
            assert(h1[h0.len() as int] == spec_begin_command(d0));
            assert(h2.subrange(0, h1.len() as int)[h0.len() as int] == h2[h0.len() as int]);
            assert(h2[h0.len() as int] == spec_begin_command(d0));
            assert(h0.is_prefix_of(h2)) by {
                assert(h2.subrange(0, h0.len() as int) =~= h1.subrange(0, h0.len() as int));
            }
        }
        match self.transaction_manager.rollback_transaction(&mut self.raw_connection) {
            Ok(()) => {
                proof {
                    lemma_prefix_push(h0, h2, spec_rollback_command((d0 + 1) as u32));
                }
                r
            },
            Err(e2) => Err(e2),
        }
    }
}

} // verus!
