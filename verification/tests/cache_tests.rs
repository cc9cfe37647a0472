//! Statement-cache behavior and text-result execution against a fresh
//! in-memory database.

use sqlite_conn::connection::Config;
use sqlite_conn::errors::{DatabaseErrorKind, QueryError};
use sqlite_conn::query_builder::{Expr, SelectStatement};
use sqlite_conn::sqlite_connection::SqliteConnection;

fn one_row(text: &str) -> Vec<Vec<Option<String>>> {
    vec![vec![Some(text.to_string())]]
}

#[test]
fn prepared_statements_are_cached_when_run() {
    let mut connection = SqliteConnection::establish(":memory:", Config::default()).unwrap();
    let query = SelectStatement { selection: Expr::Bind(1) };

    assert_eq!(Ok(one_row("1")), connection.query_by_index(&query));
    assert_eq!(Ok(one_row("1")), connection.query_by_index(&query));
    assert_eq!(1, connection.statement_cache().len());
}

#[test]
fn sql_literal_nodes_are_not_cached() {
    let mut connection = SqliteConnection::establish(":memory:", Config::default()).unwrap();
    let query = SelectStatement { selection: Expr::RawSql("1".to_string()) };

    assert_eq!(Ok(one_row("1")), connection.query_by_index(&query));
    assert_eq!(0, connection.statement_cache().len());
}

#[test]
fn queries_containing_sql_literal_nodes_are_not_cached() {
    let mut connection = SqliteConnection::establish(":memory:", Config::default()).unwrap();
    let one_as_expr = Expr::Bind(1);
    let query = SelectStatement {
        selection: Expr::Equals(
            Box::new(one_as_expr),
            Box::new(Expr::RawSql("1".to_string())),
        ),
    };

    assert_eq!(Ok(one_row("1")), connection.query_by_index(&query));
    assert_eq!(0, connection.statement_cache().len());
}

#[test]
fn queries_containing_in_with_vec_are_not_cached() {
    let mut connection = SqliteConnection::establish(":memory:", Config::default()).unwrap();
    let one_as_expr = Expr::Bind(1);
    let query = SelectStatement {
        selection: Expr::InValues(Box::new(one_as_expr), vec![1, 2, 3]),
    };

    assert_eq!(Ok(one_row("1")), connection.query_by_index(&query));
    assert_eq!(0, connection.statement_cache().len());
}

#[test]
fn queries_containing_in_with_subselect_are_cached() {
    let mut connection = SqliteConnection::establish(":memory:", Config::default()).unwrap();
    let one_as_expr = Expr::Bind(1);
    let query = SelectStatement {
        selection: Expr::InSelect(Box::new(one_as_expr), Box::new(Expr::Bind(1))),
    };

    assert_eq!(Ok(one_row("1")), connection.query_by_index(&query));
    assert_eq!(1, connection.statement_cache().len());
}

#[test]
fn test_execute_for_string1() {
    let mut connection = SqliteConnection::establish(":memory:", Config::default()).unwrap();
    let query = "PRAGMA JOURNAL_MODE";
    let result = connection.execute_for_string(query, "").unwrap();

    assert_eq!("memory", result);
}

#[test]
fn test_execute_for_string2() {
    let mut connection = SqliteConnection::establish(":memory:", Config::default()).unwrap();
    let query = "PRAGMA LOCKING_MODE";
    let result = connection.execute_for_string(query, "").unwrap();

    assert_eq!("normal", result);
}

#[test]
fn test_execute_for_string3() {
    let mut connection = SqliteConnection::establish(":memory:", Config::default()).unwrap();
    let query = "PRAGMA CACHE_SIZE";
    let result = connection.execute_for_string(query, "").unwrap();

    assert_eq!("-2000", result);
}

#[test]
fn repeated_uncacheable_queries_leave_cache_empty() {
    let mut connection = SqliteConnection::establish(":memory:", Config::default()).unwrap();
    let query = SelectStatement {
        selection: Expr::InValues(Box::new(Expr::Bind(1)), vec![1, 2]),
    };
    for _ in 0..5 {
        assert_eq!(Ok(one_row("1")), connection.query_by_index(&query));
    }
    assert_eq!(0, connection.statement_cache().len());
}

#[test]
fn distinct_fingerprints_get_distinct_entries() {
    let mut connection = SqliteConnection::establish(":memory:", Config::default()).unwrap();
    let q1 = SelectStatement { selection: Expr::Bind(1) };
    let q2 = SelectStatement {
        selection: Expr::Equals(Box::new(Expr::Bind(2)), Box::new(Expr::Bind(2))),
    };
    assert_eq!(Ok(one_row("1")), connection.query_by_index(&q1));
    assert_eq!(Ok(one_row("1")), connection.query_by_index(&q2));
    assert_eq!(2, connection.statement_cache().len());
}

#[test]
fn execute_returning_count_counts_changed_rows() {
    let mut connection = SqliteConnection::establish(":memory:", Config::default()).unwrap();
    connection
        .batch_execute("CREATE TABLE t (x INTEGER); INSERT INTO t VALUES (7);")
        .unwrap();
    assert_eq!(Ok(1), connection.execute("UPDATE t SET x = 8"));
    // An uncacheable DML-style path through execute_returning_count.
    let q = SelectStatement { selection: Expr::RawSql("3".to_string()) };
    let r = connection.execute_returning_count(&q);
    assert!(r.is_ok());
    assert_eq!(0, connection.statement_cache().len());
}

#[test]
fn execute_for_string_joins_columns_and_rows() {
    let mut connection = SqliteConnection::establish(":memory:", Config::default()).unwrap();
    connection
        .batch_execute(
            "CREATE TABLE pairs (a TEXT, b TEXT); \
             INSERT INTO pairs VALUES ('x', 'y'); \
             INSERT INTO pairs VALUES ('u', NULL);",
        )
        .unwrap();
    let text = connection
        .execute_for_string("SELECT a, b FROM pairs ORDER BY a", "|")
        .unwrap();
    assert_eq!("u|\nx|y", text);
}

#[test]
fn join_rows_renders_cells_delimiters_and_newlines() {
    let rows = vec![
        vec![Some("a".to_string()), None, Some("c".to_string())],
        vec![Some("d".to_string())],
    ];
    assert_eq!("a,,c\nd", sqlite_conn::sqlite_connection::join_rows(&rows, ","));
    let empty: Vec<Vec<Option<String>>> = Vec::new();
    assert_eq!("", sqlite_conn::sqlite_connection::join_rows(&empty, ","));
}

#[test]
fn establish_fails_on_unopenable_path() {
    let r = SqliteConnection::establish("/this/path/does/not/exist/db.sqlite3", Config::default());
    assert!(r.is_err());
}

#[test]
fn batch_execute_surfaces_native_errors() {
    let mut connection = SqliteConnection::establish(":memory:", Config::default()).unwrap();
    let r = connection.batch_execute("THIS IS NOT SQL");
    assert!(matches!(
        r,
        Err(QueryError::DatabaseError(DatabaseErrorKind::Unknown, _))
    ));
}

#[test]
fn change_password_without_codec_reports_reencrypt_failure() {
    let mut connection = SqliteConnection::establish(":memory:", Config::default()).unwrap();
    let r = connection.change_password("new-key");
    match r {
        Err(QueryError::DatabaseError(DatabaseErrorKind::UnableToReEncrypt, message)) => {
            assert!(!message.is_empty());
        },
        other => panic!("expected an unable-to-re-encrypt failure, got {:?}", other),
    }
}

#[test]
fn config_builder_accumulates_fields() {
    let config = Config::builder()
        .password("secret")
        .is_log_query(true)
        .is_explain_query(true)
        .build();
    assert_eq!(Some("secret".to_string()), config.password);
    assert!(config.is_log_query);
    assert!(config.is_explain_query);

    let plain = Config::default();
    assert_eq!(None, plain.password);
    assert!(!plain.is_log_query);
    assert!(!plain.is_explain_query);
}

#[test]
fn instrumented_connection_still_answers_queries() {
    let config = Config::builder().is_log_query(true).is_explain_query(true).build();
    let mut connection = SqliteConnection::establish(":memory:", config).unwrap();
    let query = SelectStatement { selection: Expr::Bind(1) };
    assert_eq!(Ok(one_row("1")), connection.query_by_index(&query));
    assert_eq!(Ok(one_row("1")), connection.query_by_index(&query));
    assert_eq!(1, connection.statement_cache().len());
    connection.batch_execute("CREATE TABLE t (x INTEGER)").unwrap();
    assert_eq!(Ok(1), connection.execute("INSERT INTO t VALUES (1)"));
}
