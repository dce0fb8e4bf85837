//! Runs the marshaling and sequencing layers against the real SQL engine on
//! an in-memory database, the way the application driver wires them up.
use dbcore::batch::BatchPlan;
use dbcore::executor::{assemble_result, bind_args, QueryResult};
use dbcore::value::{ExternalValue, SqlValue};

fn to_engine(v: SqlValue) -> libsql::Value {
    match v {
        SqlValue::Null => libsql::Value::Null,
        SqlValue::Integer(i) => libsql::Value::Integer(i),
        SqlValue::Real(bits) => libsql::Value::Real(f64::from_bits(bits)),
        SqlValue::Text(s) => libsql::Value::Text(s),
        SqlValue::Blob(b) => libsql::Value::Blob(b),
    }
}

fn from_engine(v: libsql::Value) -> SqlValue {
    match v {
        libsql::Value::Null => SqlValue::Null,
        libsql::Value::Integer(i) => SqlValue::Integer(i),
        libsql::Value::Real(f) => SqlValue::Real(f.to_bits()),
        libsql::Value::Text(s) => SqlValue::Text(s),
        libsql::Value::Blob(b) => SqlValue::Blob(b),
    }
}

async fn run_stmt(
    conn: &libsql::Connection,
    sql: &str,
    args: Vec<ExternalValue>,
) -> Result<QueryResult, String> {
    let params: Vec<libsql::Value> = bind_args(args).into_iter().map(to_engine).collect();
    let mut rows = conn
        .query(sql, libsql::params::Params::Positional(params))
        .await
        .map_err(|e| e.to_string())?;
    let col_count = rows.column_count() as usize;
    let mut columns: Vec<String> = Vec::new();
    for i in 0..col_count {
        columns.push(rows.column_name(i as i32).unwrap_or("?").to_string());
    }
    let mut raw: Vec<Vec<SqlValue>> = Vec::new();
    while let Some(row) = rows.next().await.map_err(|e| e.to_string())? {
        let mut cells: Vec<SqlValue> = Vec::with_capacity(col_count);
        for i in 0..col_count {
            cells.push(from_engine(row.get_value(i as i32).map_err(|e| e.to_string())?));
        }
        raw.push(cells);
    }
    assemble_result(columns, raw, conn.changes(), conn.last_insert_rowid())
        .map_err(|e| e.message())
}

fn rt() -> tokio::runtime::Runtime {
    tokio::runtime::Builder::new_current_thread()
        .enable_all()
        .build()
        .unwrap()
}

#[test]
fn select_with_positional_parameters() {
    rt().block_on(async {
        let db = libsql::Builder::new_local(":memory:").build().await.unwrap();
        let conn = db.connect().unwrap();
        let qr = run_stmt(
            &conn,
            "SELECT ? as a, ? as b",
            vec![ExternalValue::Integer(1), ExternalValue::Text(String::from("x"))],
        )
        .await
        .unwrap();
        assert_eq!(qr.columns, vec![String::from("a"), String::from("b")]);
        assert_eq!(
            qr.rows,
            vec![vec![
                ExternalValue::Integer(1),
                ExternalValue::Text(String::from("x")),
            ]]
        );
        assert_eq!(qr.rows_affected, 0);
        assert_eq!(qr.last_insert_rowid, 0);
    });
}

#[test]
fn malformed_sql_surfaces_the_engine_error() {
    rt().block_on(async {
        let db = libsql::Builder::new_local(":memory:").build().await.unwrap();
        let conn = db.connect().unwrap();
        let r = run_stmt(&conn, "SELECT FROM nowhere AT ALL", vec![]).await;
        assert!(r.is_err());
    });
}

#[test]
fn batch_stops_at_first_error_and_keeps_prior_effects() {
    rt().block_on(async {
        let db = libsql::Builder::new_local(":memory:").build().await.unwrap();
        let conn = db.connect().unwrap();
        run_stmt(&conn, "CREATE TABLE t (x INTEGER)", vec![]).await.unwrap();

        let stmts: Vec<&str> = vec![
            "INSERT INTO t (x) VALUES (1)",
            "INSERT INTO missing_table (x) VALUES (1)",
            "INSERT INTO t (x) VALUES (2)",
        ];
        let mut plan = BatchPlan::new(stmts.len());
        let mut results: Vec<QueryResult> = Vec::new();
        let mut failure: Option<String> = None;
        while let Some(i) = plan.next_statement() {
            match run_stmt(&conn, stmts[i], vec![]).await {
                Ok(qr) => {
                    results.push(qr);
                    plan.record_success();
                }
                Err(e) => {
                    failure = Some(e);
                    plan.record_failure();
                }
            }
        }
        // The first statement ran and reported its effect.
        assert_eq!(results.len(), 1);
        assert_eq!(results[0].rows_affected, 1);
        // The second failed; the third never ran.
        assert!(failure.is_some());

        // The first statement's effect is visible (no rollback): the table
        // holds exactly the one row the batch managed to insert.
        let check = run_stmt(&conn, "SELECT COUNT(*) AS n FROM t", vec![]).await.unwrap();
        assert_eq!(check.rows, vec![vec![ExternalValue::Integer(1)]]);
    });
}

#[test]
fn concurrent_executes_never_observe_each_others_counters() {
    // Two callers share one connection behind an exclusive guard, as the
    // application does; each holds the guard across its statement and the
    // counter reads, so each result reflects only its own statement.
    let rt = rt();
    rt.block_on(async {
        let db = libsql::Builder::new_local(":memory:").build().await.unwrap();
        let conn = std::sync::Arc::new(tokio::sync::Mutex::new(db.connect().unwrap()));
        {
            let g = conn.lock().await;
            run_stmt(&g, "CREATE TABLE a (x INTEGER)", vec![]).await.unwrap();
            run_stmt(&g, "CREATE TABLE b (x INTEGER)", vec![]).await.unwrap();
        }
        let conn_a = conn.clone();
        let one_row = tokio::task::spawn(async move {
            for _ in 0..20 {
                let g = conn_a.lock().await;
                let qr = run_stmt(&g, "INSERT INTO a (x) VALUES (1)", vec![]).await.unwrap();
                assert_eq!(qr.rows_affected, 1);
            }
        });
        let conn_b = conn.clone();
        let two_rows = tokio::task::spawn(async move {
            for _ in 0..20 {
                let g = conn_b.lock().await;
                let qr =
                    run_stmt(&g, "INSERT INTO b (x) VALUES (1), (2)", vec![]).await.unwrap();
                assert_eq!(qr.rows_affected, 2);
            }
        });
        one_row.await.unwrap();
        two_rows.await.unwrap();
    });
}

#[test]
fn insert_reports_rows_affected_and_rowid() {
    rt().block_on(async {
        let db = libsql::Builder::new_local(":memory:").build().await.unwrap();
        let conn = db.connect().unwrap();
        run_stmt(&conn, "CREATE TABLE t (x INTEGER)", vec![]).await.unwrap();
        let qr = run_stmt(
            &conn,
            "INSERT INTO t (x) VALUES (?)",
            vec![ExternalValue::Integer(5)],
        )
        .await
        .unwrap();
        assert_eq!(qr.rows_affected, 1);
        assert_eq!(qr.last_insert_rowid, 1);
        assert!(qr.rows.is_empty());
    });
}
