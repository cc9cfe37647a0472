//! The raw native handle: exclusive ownership of one embedded-engine
//! session, reached through a small set of trusted calls into the native
//! client interface. Each handle carries a ghost history of the SQL
//! commands it has executed, which the transaction contracts are stated
//! over.

use vstd::prelude::*;
use crate::errors::ErrorInfo;

verus! {

#[verifier::external_type_specification]
#[verifier::external_body]
pub struct ExRusqliteConnection(rusqlite::Connection);

#[verifier::external_type_specification]
#[verifier::external_body]
pub struct ExRusqliteError(rusqlite::Error);

#[verifier::external_type_specification]
#[verifier::external_body]
pub struct ExRusqliteValue(rusqlite::types::Value);

/// Relies on rusqlite::types::Value: one column value rendered as text —
/// NULL as nothing, numbers in their decimal form, text and blobs as their
/// characters.
#[verifier::external_body]
fn text_of_value(v: rusqlite::types::Value) -> (r: Option<String>) {
    match v {
        rusqlite::types::Value::Null => None,
        rusqlite::types::Value::Integer(n) => Some(n.to_string()),
        rusqlite::types::Value::Real(x) => Some(x.to_string()),
        rusqlite::types::Value::Text(t) => Some(t),
        rusqlite::types::Value::Blob(b) => Some(String::from_utf8_lossy(&b).into_owned()),
    }
}

/// One live native session, and the ghost log of the SQL commands it has
/// executed through this library.
pub struct RawConnection {
    handle: rusqlite::Connection,
    history: Ghost<Seq<Seq<char>>>,
}

/// The engine's fixed description of a native result code; it depends on
/// the code alone.
pub uninterp spec fn code_message_of(code: i32) -> Seq<char>;

/// Relies on libsqlite3_sys::code_to_str: the engine's own text for a
/// native result code.
#[verifier::external_body]
pub fn error_message(err_code: i32) -> (msg: &'static str)
    ensures
        msg@ == code_message_of(err_code),
{
    libsqlite3_sys::code_to_str(err_code)
}

/// Relies on rusqlite::Error::sqlite_extended_error_code and its text
/// rendering: the native code carried by a failure (a generic nonzero code
/// where none is carried) and its message, as plain values.
#[verifier::external_body]
pub fn error_info(e: rusqlite::Error) -> (info: ErrorInfo)
{
    let code = match e.sqlite_extended_error_code() {
        Some(c) => c,
        None => 1,
    };
    ErrorInfo { code, message: e.to_string() }
}

impl RawConnection {
    /// The SQL commands this session has executed, oldest first.
    pub closed spec fn history(&self) -> Seq<Seq<char>> {
        self.history@
    }

    /// Relies on rusqlite::Connection::open: opens the database named by
    /// `url` — a filesystem path or the in-memory marker — and fails if it
    /// cannot be opened.
    #[verifier::external_body]
    fn open_handle(url: &str) -> (r: Result<rusqlite::Connection, rusqlite::Error>)
    {
        rusqlite::Connection::open(url)
    }

    /// Opens a fresh session; its command history starts empty.
    pub fn open(url: &str) -> (r: Result<RawConnection, rusqlite::Error>)
        ensures
            r matches Ok(c) ==> c.history() == Seq::<Seq<char>>::empty(),
    {
        match Self::open_handle(url) {
            Ok(handle) => Ok(RawConnection { handle, history: Ghost(Seq::empty()) }),
            Err(e) => Err(e),
        }
    }

    /// Relies on rusqlite::Connection::pragma_update: hands the at-rest
    /// encryption key to the engine; an engine built without a codec
    /// accepts it as a no-op.
    #[verifier::external_body]
    pub fn apply_key(&mut self, password: &str) -> (r: Result<(), rusqlite::Error>)
        ensures
            final(self).history() == old(self).history(),
    {
        self.handle.pragma_update(None, "key", password)
    }

    /// Relies on rusqlite::Connection::execute_batch: runs every statement
    /// in `sql` against the database and reports the first failure. A
    /// successful run is appended to the history; a failed single command
    /// has no effect.
    #[verifier::external_body]
    pub fn exec(&mut self, sql: &str) -> (r: Result<(), rusqlite::Error>)
        ensures
            r is Ok ==> final(self).history() == old(self).history().push(sql@),
            r is Err ==> final(self).history() == old(self).history(),
    {
        self.handle.execute_batch(sql)
    }

    /// Relies on rusqlite::Connection::prepare: compiles `sql` without
    /// running it, and fails on SQL the engine rejects.
    #[verifier::external_body]
    pub fn prepare_validate(&self, sql: &str) -> (r: Result<(), rusqlite::Error>)
    {
        self.handle.prepare(sql).map(|_| ())
    }

    /// Relies on rusqlite::Statement::raw_query after raw parameter
    /// binding: prepares `sql`, binds `binds` in order (parameters without
    /// a bind stay NULL, as the native text interface treats them), runs
    /// it, and hands every row back with each column as text (SQL NULL as
    /// None).
    #[verifier::external_body]
    pub fn query_rows(&mut self, sql: &str, binds: &Vec<i64>) -> (r: Result<
        Vec<Vec<Option<String>>>,
        rusqlite::Error,
    >)
        ensures
            r is Ok ==> final(self).history() == old(self).history().push(sql@),
            r is Err ==> final(self).history() == old(self).history(),
    {
        let mut stmt = self.handle.prepare(sql)?;
        for (i, v) in binds.iter().enumerate() {
            stmt.raw_bind_parameter(i + 1, v)?;
        }
        let mut rows = stmt.raw_query();
        let mut out: Vec<Vec<Option<String>>> = Vec::new();
        while let Some(row) = rows.next()? {
            let mut rec: Vec<Option<String>> = Vec::new();
            for i in 0..row.as_ref().column_count() {
                rec.push(text_of_value(row.get(i)?));
            }
            out.push(rec);
        }
        Ok(out)
    }

    /// Relies on rusqlite::Statement::raw_query after raw parameter
    /// binding: prepares `sql`, binds `binds` in order, and runs one step
    /// of the statement, discarding any row it produced.
    #[verifier::external_body]
    pub fn run_with_binds(&mut self, sql: &str, binds: &Vec<i64>) -> (r: Result<
        (),
        rusqlite::Error,
    >)
        ensures
            r is Ok ==> final(self).history() == old(self).history().push(sql@),
            r is Err ==> final(self).history() == old(self).history(),
    {
        let mut stmt = self.handle.prepare(sql)?;
        for (i, v) in binds.iter().enumerate() {
            stmt.raw_bind_parameter(i + 1, v)?;
        }
        let mut rows = stmt.raw_query();
        rows.next()?;
        Ok(())
    }

    /// Relies on rusqlite::Connection::changes: the rows changed by the
    /// most recently completed INSERT, UPDATE or DELETE.
    #[verifier::external_body]
    pub fn rows_affected_by_last_query(&self) -> (n: usize)
    {
        self.handle.changes() as usize
    }

    /// Relies on rusqlite::Connection::query_row over the engine's own
    /// sqlite_compileoption_used function: nonzero exactly when the engine
    /// was built with an at-rest-encryption codec.
    #[verifier::external_body]
    pub fn codec_compile_option(&self) -> (r: Result<i64, rusqlite::Error>)
    {
        self.handle.query_row(
            "SELECT sqlite_compileoption_used('SQLITE_HAS_CODEC')",
            [],
            |row| row.get(0),
        )
    }

    /// Relies on rusqlite::Connection::pragma_update: asks the engine to
    /// re-encrypt the store under a new key.
    #[verifier::external_body]
    pub fn pragma_rekey(&mut self, password: &str) -> (r: Result<(), rusqlite::Error>)
        ensures
            final(self).history() == old(self).history(),
    {
        self.handle.pragma_update(None, "rekey", password)
    }
}

} // verus!
