//! Transaction semantics: commit on success, rollback on failure, savepoint
//! nesting, the probe-query logging exemption, and the always-rolled-back
//! test transaction.

use sqlite_conn::connection::Config;
use sqlite_conn::errors::{DatabaseErrorKind, QueryError, QueryResult};
use sqlite_conn::query_logger::{get_duration_millisecond, QueryLogger};
use sqlite_conn::sqlite_connection::{SqlBatchBody, SqliteConnection, TransactionBody};

fn fresh_with_table() -> SqliteConnection {
    let mut conn = SqliteConnection::establish(":memory:", Config::default()).unwrap();
    conn.batch_execute("CREATE TABLE t (x TEXT)").unwrap();
    conn
}

fn table_text(conn: &mut SqliteConnection) -> String {
    conn.execute_for_string("SELECT x FROM t ORDER BY x", "").unwrap()
}

struct InsertThenFail {
    value: &'static str,
}

impl TransactionBody<()> for InsertThenFail {
    fn run(&mut self, conn: &mut SqliteConnection) -> QueryResult<()> {
        let mut sql = String::from("INSERT INTO t VALUES ('");
        sql.push_str(self.value);
        sql.push_str("')");
        conn.batch_execute(&sql)?;
        Err(QueryError::DatabaseError(
            DatabaseErrorKind::Unknown,
            "deliberate failure".to_string(),
        ))
    }
}

struct NestedScopes {
    remaining: u32,
}

impl TransactionBody<u32> for NestedScopes {
    fn run(&mut self, conn: &mut SqliteConnection) -> QueryResult<u32> {
        if self.remaining == 0 {
            return Ok(conn.transaction_manager().get_transaction_depth());
        }
        let mut inner = NestedScopes { remaining: self.remaining - 1 };
        conn.transaction(&mut inner)
    }
}

struct InsertThenSignalRollback;

impl TransactionBody<()> for InsertThenSignalRollback {
    fn run(&mut self, conn: &mut SqliteConnection) -> QueryResult<()> {
        conn.batch_execute("INSERT INTO t VALUES ('undone')")?;
        Err(QueryError::RollbackTransaction)
    }
}

struct OuterWithInnerOutcomes;

impl TransactionBody<()> for OuterWithInnerOutcomes {
    fn run(&mut self, conn: &mut SqliteConnection) -> QueryResult<()> {
        conn.batch_execute("INSERT INTO t VALUES ('outer')")?;
        let mut committed_inner = SqlBatchBody {
            statements: vec!["INSERT INTO t VALUES ('kept')".to_string()],
        };
        conn.transaction(&mut committed_inner)?;
        let mut failing_inner = InsertThenFail { value: "dropped" };
        let r = conn.transaction(&mut failing_inner);
        assert!(r.is_err());
        Ok(())
    }
}

#[test]
fn transaction_commits_on_ok_and_restores_depth() {
    let mut conn = fresh_with_table();
    assert_eq!(0, conn.transaction_manager().get_transaction_depth());
    let mut body = SqlBatchBody {
        statements: vec!["INSERT INTO t VALUES ('a')".to_string()],
    };
    assert_eq!(Ok(()), conn.transaction(&mut body));
    assert_eq!(0, conn.transaction_manager().get_transaction_depth());
    assert_eq!("a", table_text(&mut conn));
}

#[test]
fn transaction_rolls_back_on_err_and_returns_error_unchanged() {
    let mut conn = fresh_with_table();
    let mut body = InsertThenFail { value: "ghostly" };
    let r = conn.transaction(&mut body);
    assert_eq!(
        Err(QueryError::DatabaseError(
            DatabaseErrorKind::Unknown,
            "deliberate failure".to_string(),
        )),
        r
    );
    assert_eq!(0, conn.transaction_manager().get_transaction_depth());
    assert_eq!("", table_text(&mut conn));
}

#[test]
fn inner_rollback_keeps_outer_scope_effects() {
    let mut conn = fresh_with_table();
    let mut outer = OuterWithInnerOutcomes;
    assert_eq!(Ok(()), conn.transaction(&mut outer));
    assert_eq!(0, conn.transaction_manager().get_transaction_depth());
    assert_eq!("kept\nouter", table_text(&mut conn));
}

#[test]
fn nesting_runs_through_two_digit_savepoint_names() {
    let mut conn = fresh_with_table();
    let mut body = NestedScopes { remaining: 11 };
    assert_eq!(Ok(12), conn.transaction(&mut body));
    assert_eq!(0, conn.transaction_manager().get_transaction_depth());
}

#[test]
fn begin_test_transaction_opens_one_scope() {
    let mut conn = fresh_with_table();
    assert_eq!(Ok(()), conn.begin_test_transaction());
    assert_eq!(1, conn.transaction_manager().get_transaction_depth());
    conn.batch_execute("INSERT INTO t VALUES ('never committed')").unwrap();
}

#[test]
fn test_transaction_always_rolls_back() {
    let mut conn = fresh_with_table();
    let mut body = SqlBatchBody {
        statements: vec!["INSERT INTO t VALUES ('temporary')".to_string()],
    };
    assert_eq!(Ok(()), conn.test_transaction(&mut body));
    assert_eq!(0, conn.transaction_manager().get_transaction_depth());
    assert_eq!("", table_text(&mut conn));
}

#[test]
fn test_transaction_hands_back_body_failure() {
    let mut conn = fresh_with_table();
    let mut body = InsertThenFail { value: "gone" };
    let r = conn.test_transaction(&mut body);
    assert!(matches!(
        r,
        Err(QueryError::DatabaseError(DatabaseErrorKind::Unknown, _))
    ));
    assert_eq!(0, conn.transaction_manager().get_transaction_depth());
    assert_eq!("", table_text(&mut conn));
}

#[test]
fn sentinel_rollback_signal_forces_rollback() {
    let mut conn = fresh_with_table();
    let mut body = InsertThenSignalRollback;
    let r = conn.transaction(&mut body);
    assert_eq!(Err(QueryError::RollbackTransaction), r);
    assert_eq!(0, conn.transaction_manager().get_transaction_depth());
    assert_eq!("", table_text(&mut conn));
}

#[test]
fn query_logger_skips_probe_query_and_records_others() {
    let probe = QueryLogger::new("SELECT 1", true);
    assert!(probe.finish().is_none());

    let off = QueryLogger::new("SELECT 2", false);
    assert!(off.finish().is_none());

    let on = QueryLogger::new("SELECT 2", true);
    let record = on.finish().expect("an active observer emits a record");
    assert_eq!("SELECT 2", record.query);
}

#[test]
fn get_duration_millisecond_combines_parts() {
    assert_eq!(0, get_duration_millisecond(0, 999_999));
    assert_eq!(1, get_duration_millisecond(0, 1_000_000));
    assert_eq!(2_500, get_duration_millisecond(2, 500_000_000));
    assert_eq!(u64::MAX, get_duration_millisecond(u64::MAX, 0));
}
