//! The library's machines driven against a real SQLite engine in memory. The
//! file system is played by the tables of names and texts that each test gives.

use local_store::commands::{
    init_db, install, is_db_ready, readiness_probe, reset_db, InitAnswer, InitRequest, InitStep,
};
use local_store::domain::AppState;
use local_store::error::StoreError;
use local_store::proxy::{batch_result, execute_batch_sql, execute_single_sql, single_result};
use local_store::run::{Answer, MigrationRun, Request};
use local_store::transaction::{Command, Reply, Statement};
use local_store::value::{
    column_kind, Binding, ColumnKind, Fetched, Number, RawCell, SQLQuery, SQLRow, Value,
};
use sqlx::sqlite::{SqliteArguments, SqlitePoolOptions, SqliteRow};
use sqlx::{Column, Pool, Row, Sqlite, Transaction, TypeInfo, ValueRef};
use std::future::Future;

fn block_on<F: Future>(future: F) -> F::Output {
    tokio::runtime::Builder::new_current_thread()
        .enable_all()
        .build()
        .unwrap()
        .block_on(future)
}

async fn memory_pool() -> Pool<Sqlite> {
    SqlitePoolOptions::new()
        .max_connections(1)
        .connect("sqlite::memory:")
        .await
        .unwrap()
}

fn bind<'q>(statement: &'q Statement) -> sqlx::query::Query<'q, Sqlite, SqliteArguments<'q>> {
    let mut query = sqlx::query(statement.sql.as_str());
    for binding in &statement.bindings {
        query = match binding {
            Binding::Null => query.bind(None::<String>),
            Binding::Bool(b) => query.bind(*b),
            Binding::Integer(i) => query.bind(*i),
            Binding::Real(bits) => query.bind(f64::from_bits(*bits)),
            Binding::Text(s) => query.bind(s.as_str()),
        };
    }
    query
}

fn fetched<T>(read: Result<Option<T>, sqlx::Error>, wrap: impl FnOnce(T) -> Fetched) -> Fetched {
    match read {
        Ok(Some(value)) => wrap(value),
        Ok(None) => Fetched::Null,
        Err(_) => Fetched::Failed,
    }
}

fn raw_row(row: &SqliteRow) -> Vec<RawCell> {
    (0..row.len())
        .map(|index| {
            let column = row.column(index);
            let reported = match row.try_get_raw(index) {
                Ok(value) => value.type_info().name().to_string(),
                Err(_) => column.type_info().name().to_string(),
            };
            let value = match column_kind(reported.as_str()) {
                ColumnKind::Integer => {
                    fetched(row.try_get::<Option<i64>, _>(index), Fetched::Integer)
                }
                ColumnKind::Real => fetched(row.try_get::<Option<f64>, _>(index), |f| {
                    Fetched::Real(f.to_bits())
                }),
                ColumnKind::Blob => {
                    fetched(row.try_get::<Option<Vec<u8>>, _>(index), Fetched::Blob)
                }
                ColumnKind::Text | ColumnKind::Other => {
                    fetched(row.try_get::<Option<String>, _>(index), Fetched::Text)
                }
            };
            RawCell { column: column.name().to_string(), value }
        })
        .collect()
}

fn reply(rows: Result<Vec<SqliteRow>, sqlx::Error>) -> Reply {
    match rows {
        Ok(rows) => Ok(rows.iter().map(raw_row).collect()),
        Err(err) => Err(err.to_string()),
    }
}

async fn execute(pool: &Pool<Sqlite>, statement: &Statement) -> Reply {
    reply(bind(statement).fetch_all(pool).await)
}

async fn transact(
    pool: &Pool<Sqlite>,
    open: &mut Option<Transaction<'static, Sqlite>>,
    command: &Command,
) -> Reply {
    match command {
        Command::Begin => match pool.begin().await {
            Ok(transaction) => {
                *open = Some(transaction);
                Ok(Vec::new())
            }
            Err(err) => Err(err.to_string()),
        },
        Command::Run(statement) => {
            let transaction = open.as_mut().unwrap();
            reply(bind(statement).fetch_all(&mut **transaction).await)
        }
        Command::Commit => match open.take().unwrap().commit().await {
            Ok(()) => Ok(Vec::new()),
            Err(err) => Err(err.to_string()),
        },
        Command::Rollback => match open.take().unwrap().rollback().await {
            Ok(()) => Ok(Vec::new()),
            Err(err) => Err(err.to_string()),
        },
    }
}

fn answer(reply: Reply) -> Answer {
    match reply {
        Ok(rows) => Answer::Rows(rows),
        Err(message) => Answer::Failed(message),
    }
}

/// Performs a request of a migration run: the engine is real, the directory is
/// `files`, a list of names and texts in listing order.
async fn perform(
    pool: &Pool<Sqlite>,
    open: &mut Option<Transaction<'static, Sqlite>>,
    files: &[(&str, &str)],
    reads: &mut Vec<String>,
    request: &Request,
) -> Answer {
    match request {
        Request::Execute(statement) => answer(execute(pool, statement).await),
        Request::ListDirectory(_) => {
            Answer::Names(files.iter().map(|(name, _)| name.to_string()).collect())
        }
        Request::ReadFile { name, .. } => {
            reads.push(name.clone());
            match files.iter().find(|(n, _)| n == name) {
                Some((_, text)) => Answer::Text(text.to_string()),
                None => Answer::Failed(String::from("no such file")),
            }
        }
        Request::Transact(command) => answer(transact(pool, open, command).await),
    }
}

/// Drives a whole migration run; returns its outcome and the files it read.
async fn migrate(
    pool: &Pool<Sqlite>,
    files: &[(&str, &str)],
) -> (Result<usize, StoreError>, Vec<String>) {
    let (mut run, first) = MigrationRun::start(String::from("migrations"));
    let mut request = Some(first);
    let mut open = None;
    let mut reads = Vec::new();
    while let Some(asked) = request {
        let answer = perform(pool, &mut open, files, &mut reads, &asked).await;
        let (next, following) = run.advance(answer);
        run = next;
        request = following;
    }
    (run.outcome().unwrap(), reads)
}

async fn single(state: &AppState<Pool<Sqlite>>, sql: &str, params: Vec<Value>) -> Result<Vec<SQLRow>, StoreError> {
    let query = SQLQuery { sql: sql.to_string(), params };
    let statement = execute_single_sql(state, &query)?;
    let pool = state.db.as_ref().unwrap().get_pool();
    single_result(execute(pool, &statement).await)
}

async fn batch(state: &AppState<Pool<Sqlite>>, queries: Vec<SQLQuery>) -> Result<Vec<Vec<SQLRow>>, StoreError> {
    let (mut transaction, first) = execute_batch_sql(state, &queries)?;
    let pool = state.db.as_ref().unwrap().get_pool();
    let mut open = None;
    let mut command = Some(first);
    while let Some(asked) = command {
        let reply = transact(pool, &mut open, &asked).await;
        let (next, following) = transaction.advance(reply);
        transaction = next;
        command = following;
    }
    batch_result(transaction.outcome().unwrap(), &queries)
}

/// Initializes a registry over a pool in memory, with the given migrations.
async fn initialize(
    state: &mut AppState<Pool<Sqlite>>,
    files: &[(&str, &str)],
) -> Result<(), StoreError> {
    let (mut init, mut request) = init_db(state, "secret")?;
    let mut open = None;
    let mut reads = Vec::new();
    let db = loop {
        let answer = match (&request, init.pool()) {
            (InitRequest::Connect(_), _) => InitAnswer::Connected(memory_pool().await),
            (InitRequest::Prepare(statement), Some(pool)) => {
                InitAnswer::Engine(answer(execute(pool, statement).await))
            }
            (InitRequest::Migrate(asked), Some(pool)) => {
                InitAnswer::Engine(perform(pool, &mut open, files, &mut reads, asked).await)
            }
            (_, None) => unreachable!(),
        };
        match init.advance(answer) {
            InitStep::Continue(next, asked) => {
                init = next;
                request = asked;
            }
            InitStep::Done(result) => break result?,
        }
    };
    assert!(install(state, db).is_none());
    Ok(())
}

async fn probe(state: &AppState<Pool<Sqlite>>) -> bool {
    let counted = match (readiness_probe(state), state.db.as_ref()) {
        (Some(statement), Some(db)) => sqlx::query_scalar::<_, i32>(statement.sql.as_str())
            .fetch_one(db.get_pool())
            .await
            .ok(),
        _ => None,
    };
    is_db_ready(state, counted)
}

fn fresh_state() -> AppState<Pool<Sqlite>> {
    AppState::new(String::from("data"), String::from("migrations"))
}

fn integer(i: i64) -> Value {
    Value::Number(Number::Integer(i))
}

fn text(s: &str) -> Value {
    Value::Text(s.to_string())
}

async fn count(pool: &Pool<Sqlite>, sql: &str) -> i64 {
    sqlx::query_scalar::<_, i64>(sql).fetch_one(pool).await.unwrap()
}

const MIGRATIONS: [(&str, &str); 4] = [
    ("010_c.sql", "INSERT INTO a (x) VALUES (10);"),
    ("001_a.sql", "CREATE TABLE a (x INTEGER); INSERT INTO a (x) VALUES (1);"),
    ("notes.txt", "this is no migration"),
    ("002_b.sql", "INSERT INTO a (x) VALUES (2);"),
];

#[test]
fn readiness_follows_initialization() {
    block_on(async {
        let mut state = fresh_state();
        assert!(!probe(&state).await);
        initialize(&mut state, &MIGRATIONS).await.unwrap();
        assert!(probe(&state).await);
    });
}

#[test]
fn second_initialization_is_refused_and_the_database_stays() {
    block_on(async {
        let mut state = fresh_state();
        initialize(&mut state, &MIGRATIONS).await.unwrap();
        let again = initialize(&mut state, &MIGRATIONS).await;
        assert_eq!(again, Err(StoreError::AlreadyInitialized));
        assert_eq!(
            StoreError::AlreadyInitialized.message(),
            "Database is already initialized."
        );
        let rows = single(&state, "SELECT count(*) AS n FROM a", vec![]).await.unwrap();
        assert_eq!(rows[0].rows, vec![integer(3)]);
    });
}

#[test]
fn failed_migration_leaves_the_slot_empty() {
    block_on(async {
        let mut state = fresh_state();
        let broken = [("001_a.sql", "CREATE TABLE a (x INTEGER); INSERT INTO missing VALUES (1);")];
        let result = initialize(&mut state, &broken).await;
        assert!(matches!(result, Err(StoreError::Migration { .. })));
        assert!(state.db.is_none());
        assert!(!probe(&state).await);
        initialize(&mut state, &MIGRATIONS).await.unwrap();
        assert!(probe(&state).await);
    });
}

#[test]
fn reset_empties_the_registry_and_allows_a_new_start() {
    block_on(async {
        let mut state = fresh_state();
        initialize(&mut state, &MIGRATIONS).await.unwrap();
        let plan = reset_db(&mut state, true);
        assert!(plan.close.is_some());
        assert_eq!(plan.purge, Some(String::from("data")));
        plan.close.unwrap().close().await;
        assert!(state.db.is_none());
        assert!(!probe(&state).await);
        assert_eq!(
            single(&state, "SELECT 1", vec![]).await,
            Err(StoreError::NotInitialized)
        );
        initialize(&mut state, &MIGRATIONS).await.unwrap();
        assert!(probe(&state).await);
    });
}

#[test]
fn migrations_apply_in_name_order_whatever_the_listing_order() {
    block_on(async {
        let pool = memory_pool().await;
        let (outcome, reads) = migrate(&pool, &MIGRATIONS).await;
        assert_eq!(outcome, Ok(3));
        assert_eq!(reads, vec!["001_a.sql", "002_b.sql", "010_c.sql"]);
        let applied: Vec<String> =
            sqlx::query_scalar::<_, String>("SELECT name FROM __migration__ ORDER BY id")
                .fetch_all(&pool)
                .await
                .unwrap();
        assert_eq!(applied, vec!["001_a.sql", "002_b.sql", "010_c.sql"]);
        assert_eq!(count(&pool, "SELECT count(*) FROM a").await, 3);
    });
}

#[test]
fn second_run_applies_nothing() {
    block_on(async {
        let pool = memory_pool().await;
        assert_eq!(migrate(&pool, &MIGRATIONS).await.0, Ok(3));
        let (outcome, reads) = migrate(&pool, &MIGRATIONS).await;
        assert_eq!(outcome, Ok(0));
        assert_eq!(reads.len(), 3);
        assert_eq!(count(&pool, "SELECT count(*) FROM a").await, 3);
        assert_eq!(count(&pool, "SELECT count(*) FROM __migration__").await, 3);
    });
}

#[test]
fn later_run_applies_only_what_is_new() {
    block_on(async {
        let pool = memory_pool().await;
        assert_eq!(migrate(&pool, &MIGRATIONS[1..2]).await.0, Ok(1));
        assert_eq!(migrate(&pool, &MIGRATIONS).await.0, Ok(2));
        assert_eq!(count(&pool, "SELECT count(*) FROM a").await, 3);
    });
}

#[test]
fn migration_with_a_failing_statement_leaves_nothing_behind() {
    block_on(async {
        let pool = memory_pool().await;
        let files = [
            ("001_ok.sql", "CREATE TABLE kept (x INTEGER);"),
            ("002_bad.sql", "CREATE TABLE lost (x INTEGER); INSERT INTO missing VALUES (1);"),
            ("003_late.sql", "CREATE TABLE late (x INTEGER);"),
        ];
        let (outcome, reads) = migrate(&pool, &files).await;
        match outcome {
            Err(StoreError::Migration { file, cause }) => {
                assert_eq!(file, "002_bad.sql");
                assert!(cause.contains("missing"));
            }
            other => panic!("unexpected outcome: {:?}", other),
        }
        assert_eq!(reads, vec!["001_ok.sql", "002_bad.sql"]);
        let tables = "SELECT count(*) FROM sqlite_master WHERE type='table' AND name=";
        assert_eq!(count(&pool, &format!("{}'kept'", tables)).await, 1);
        assert_eq!(count(&pool, &format!("{}'lost'", tables)).await, 0);
        assert_eq!(count(&pool, &format!("{}'late'", tables)).await, 0);
        assert_eq!(
            count(&pool, "SELECT count(*) FROM __migration__ WHERE name = '002_bad.sql'").await,
            0
        );
        assert_eq!(count(&pool, "SELECT count(*) FROM __migration__").await, 1);
    });
}

#[test]
fn migration_without_statements_is_recorded() {
    block_on(async {
        let pool = memory_pool().await;
        let files = [("001_empty.sql", "  ;; ")];
        assert_eq!(migrate(&pool, &files).await.0, Ok(1));
        assert_eq!(count(&pool, "SELECT count(*) FROM __migration__").await, 1);
        assert_eq!(migrate(&pool, &files).await.0, Ok(0));
    });
}

#[test]
fn migration_that_does_not_parse_is_a_parse_error() {
    block_on(async {
        let pool = memory_pool().await;
        let files = [("001_bad.sql", "CREATE TABLE (")];
        match migrate(&pool, &files).await.0 {
            Err(StoreError::Parse(message)) => {
                assert!(message.starts_with("sql parser error: "));
            }
            other => panic!("unexpected outcome: {:?}", other),
        }
        assert_eq!(count(&pool, "SELECT count(*) FROM __migration__").await, 0);
    });
}

#[test]
fn empty_directory_applies_nothing() {
    block_on(async {
        let pool = memory_pool().await;
        let (outcome, reads) = migrate(&pool, &[]).await;
        assert_eq!(outcome, Ok(0));
        assert!(reads.is_empty());
    });
}

#[test]
fn select_round_trip() {
    block_on(async {
        let mut state = fresh_state();
        initialize(&mut state, &[]).await.unwrap();
        let rows = single(&state, "SELECT 1 AS n, 'x' AS s, NULL AS z", vec![]).await.unwrap();
        assert_eq!(
            rows,
            vec![SQLRow {
                columns: vec!["n".to_string(), "s".to_string(), "z".to_string()],
                rows: vec![integer(1), text("x"), Value::Null],
            }]
        );
    });
}

#[test]
fn batch_with_a_failing_query_commits_nothing() {
    block_on(async {
        let mut state = fresh_state();
        initialize(&mut state, &[("001_t.sql", "CREATE TABLE t (x INTEGER);")]).await.unwrap();
        let result = batch(
            &state,
            vec![
                SQLQuery { sql: "INSERT INTO t VALUES (1)".to_string(), params: vec![] },
                SQLQuery { sql: "INSERT INTO t VALUES (bad)".to_string(), params: vec![] },
            ],
        )
        .await;
        match result {
            Err(StoreError::Engine(message)) => {
                assert!(message.starts_with("Error executing 'INSERT INTO t VALUES (bad)': "));
            }
            other => panic!("unexpected result: {:?}", other),
        }
        let rows = single(&state, "SELECT count(*) AS n FROM t", vec![]).await.unwrap();
        assert_eq!(rows[0].rows, vec![integer(0)]);
    });
}

#[test]
fn batch_returns_the_rows_of_each_query_at_its_position() {
    block_on(async {
        let mut state = fresh_state();
        initialize(&mut state, &[("001_t.sql", "CREATE TABLE t (x INTEGER);")]).await.unwrap();
        let results = batch(
            &state,
            vec![
                SQLQuery { sql: "INSERT INTO t VALUES (?)".to_string(), params: vec![integer(7)] },
                SQLQuery { sql: "INSERT INTO t VALUES (?)".to_string(), params: vec![integer(9)] },
                SQLQuery { sql: "SELECT x FROM t ORDER BY x".to_string(), params: vec![] },
            ],
        )
        .await
        .unwrap();
        assert_eq!(results.len(), 3);
        assert!(results[0].is_empty());
        assert!(results[1].is_empty());
        assert_eq!(results[2].len(), 2);
        assert_eq!(results[2][0].rows, vec![integer(7)]);
        assert_eq!(results[2][1].rows, vec![integer(9)]);
        let rows = single(&state, "SELECT count(*) AS n FROM t", vec![]).await.unwrap();
        assert_eq!(rows[0].rows, vec![integer(2)]);
    });
}

#[test]
fn batch_without_queries_commits_and_returns_nothing() {
    block_on(async {
        let mut state = fresh_state();
        initialize(&mut state, &[]).await.unwrap();
        assert_eq!(batch(&state, vec![]).await, Ok(vec![]));
    });
}

#[test]
fn proxy_needs_an_installed_database() {
    block_on(async {
        let state = fresh_state();
        assert_eq!(single(&state, "SELECT 1", vec![]).await, Err(StoreError::NotInitialized));
        assert_eq!(batch(&state, vec![]).await, Err(StoreError::NotInitialized));
    });
}

#[test]
fn parameters_bind_by_position_and_kind() {
    block_on(async {
        let mut state = fresh_state();
        initialize(&mut state, &[]).await.unwrap();
        let rows = single(
            &state,
            "SELECT ? AS a, ? AS b, ? AS c, ? AS d, ? AS e, ? AS f",
            vec![
                text("hello"),
                integer(-5),
                Value::Bool(true),
                Value::Null,
                Value::Array,
                Value::Number(Number::Real(1.5f64.to_bits())),
            ],
        )
        .await
        .unwrap();
        assert_eq!(rows.len(), 1);
        assert_eq!(
            rows[0].rows,
            vec![
                text("hello"),
                integer(-5),
                integer(1),
                Value::Null,
                Value::Null,
                Value::Number(Number::Real(1.5f64.to_bits())),
            ]
        );
    });
}

#[test]
fn unsigned_parameter_beyond_the_signed_range_binds_as_real() {
    block_on(async {
        let mut state = fresh_state();
        initialize(&mut state, &[]).await.unwrap();
        let rows = single(
            &state,
            "SELECT ? AS big, ? AS small",
            vec![Value::Number(Number::Unsigned(u64::MAX)), Value::Number(Number::Unsigned(42))],
        )
        .await
        .unwrap();
        assert_eq!(
            rows[0].rows,
            vec![Value::Number(Number::Real((u64::MAX as f64).to_bits())), integer(42)]
        );
    });
}

#[test]
fn blob_comes_out_as_base64_text() {
    block_on(async {
        let mut state = fresh_state();
        initialize(&mut state, &[]).await.unwrap();
        let rows = single(&state, "SELECT x'010203' AS b, x'' AS e, x'ff' AS p", vec![])
            .await
            .unwrap();
        assert_eq!(rows[0].columns, vec!["b", "e", "p"]);
        assert_eq!(rows[0].rows, vec![text("AQID"), text(""), text("/w==")]);
    });
}

#[test]
fn engine_error_of_a_single_statement_is_reported() {
    block_on(async {
        let mut state = fresh_state();
        initialize(&mut state, &[]).await.unwrap();
        let result = single(&state, "SELECT * FROM nowhere", vec![]).await;
        match result {
            Err(StoreError::Engine(message)) => assert!(message.contains("nowhere")),
            other => panic!("unexpected result: {:?}", other),
        }
    });
}
