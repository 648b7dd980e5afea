//! The migration engine: it brings the schema to the latest known state, each
//! migration file applied exactly once, in a fixed order, inside a transaction
//! of its own.

use vstd::prelude::*;
use sqlparser::dialect::SQLiteDialect;
use sqlparser::parser::{Parser, ParserError};
use crate::error::{concat2, concat3, ErrorModel, StoreError};
use crate::run::{MigrationRun, Request, RunModel};
use crate::transaction::{statement_views, Statement, StatementModel};
use crate::value::{Binding, BindingModel};

verus! {

/// The name of the table that records the applied migrations.
pub const MIGRATION_TABLE_NAME: &'static str = "__migration__";

/// Why a migration's text could not be split into statements.
#[derive(Clone, Debug, PartialEq, Eq)]
pub enum ParseFault {
    /// The text could not be cut into tokens.
    Tokenizer(String),
    /// The tokens are not a sequence of statements.
    Syntax(String),
    /// An expression is nested too deeply.
    TooDeep,
}

/// The mathematical content of a [`ParseFault`].
pub enum ParseFaultModel {
    Tokenizer(Seq<char>),
    Syntax(Seq<char>),
    TooDeep,
}

impl View for ParseFault {
    type V = ParseFaultModel;

    open spec fn view(&self) -> ParseFaultModel {
        match self {
            ParseFault::Tokenizer(m) => ParseFaultModel::Tokenizer(m@),
            ParseFault::Syntax(m) => ParseFaultModel::Syntax(m@),
            ParseFault::TooDeep => ParseFaultModel::TooDeep,
        }
    }
}

/// What the SQLite grammar makes of a text: its statements, each written out
/// again in canonical form, or the reason why it is no sequence of statements.
pub uninterp spec fn parsed(sql: Seq<char>) -> Result<Seq<Seq<char>>, ParseFaultModel>;

/// The view of a parse result.
pub open spec fn parse_view(r: Result<Vec<String>, ParseFault>) -> Result<
    Seq<Seq<char>>,
    ParseFaultModel,
> {
    match r {
        Ok(statements) => Ok(Seq::new(statements@.len(), |i: int| statements@[i]@)),
        Err(fault) => Err(fault@),
    }
}

/// `sqlparser::parser::Parser::parse_sql` with the SQLite dialect, each parsed
/// statement written out by its `Display`. The contract names the result: the
/// parser reads nothing but its argument.
#[verifier::external_body]
pub(crate) fn parse_sql(sql: &str) -> (r: Result<Vec<String>, ParseFault>)
    ensures
        parse_view(r) == parsed(sql@),
{
    match Parser::parse_sql(&SQLiteDialect {}, sql) {
        Ok(statements) => Ok(statements.iter().map(|s| s.to_string()).collect()),
        Err(ParserError::TokenizerError(m)) => Err(ParseFault::Tokenizer(m)),
        Err(ParserError::ParserError(m)) => Err(ParseFault::Syntax(m)),
        Err(ParserError::RecursionLimitExceeded) => Err(ParseFault::TooDeep),
    }
}

/// The message of a parse fault.
pub open spec fn fault_message(fault: ParseFaultModel) -> Seq<char> {
    match fault {
        ParseFaultModel::Tokenizer(m) => "sql parser error: "@ + m,
        ParseFaultModel::Syntax(m) => "sql parser error: "@ + m,
        ParseFaultModel::TooDeep => "sql parser error: recursion limit exceeded"@,
    }
}

/// The error that reports a parse fault.
pub fn parse_error(fault: &ParseFault) -> (e: StoreError)
    ensures
        e@ == ErrorModel::Parse(fault_message(fault@)),
{
    match fault {
        ParseFault::Tokenizer(m) => StoreError::Parse(concat2("sql parser error: ", m.as_str())),
        ParseFault::Syntax(m) => StoreError::Parse(concat2("sql parser error: ", m.as_str())),
        ParseFault::TooDeep => StoreError::Parse(
            String::from_str("sql parser error: recursion limit exceeded"),
        ),
    }
}

/// The statement that creates the tracking table unless it exists.
pub open spec fn tracking_table_statement() -> StatementModel {
    StatementModel {
        sql: "CREATE TABLE IF NOT EXISTS "@ + MIGRATION_TABLE_NAME@
            + "(id INTEGER PRIMARY KEY AUTOINCREMENT, name TEXT NOT NULL UNIQUE, applied_at TEXT NOT NULL DEFAULT CURRENT_TIMESTAMP);"@,
        bindings: Seq::empty(),
    }
}

/// The statement that looks a migration up in the tracking table.
pub open spec fn lookup_statement(name: Seq<char>) -> StatementModel {
    StatementModel {
        sql: "SELECT id FROM "@ + MIGRATION_TABLE_NAME@ + " WHERE name = ? LIMIT 1;"@,
        bindings: seq![BindingModel::Text(name)],
    }
}

/// The statement that records a migration in the tracking table.
pub open spec fn record_statement(name: Seq<char>) -> StatementModel {
    StatementModel {
        sql: "INSERT INTO "@ + MIGRATION_TABLE_NAME@ + " (name) VALUES (?)"@,
        bindings: seq![BindingModel::Text(name)],
    }
}

/// A statement without placeholders.
pub open spec fn plain_statement(sql: Seq<char>) -> StatementModel {
    StatementModel { sql, bindings: Seq::empty() }
}

/// The script of a migration: its statements in order, then the row that
/// records it. A migration without statements still records itself.
pub open spec fn migration_script(name: Seq<char>, statements: Seq<Seq<char>>) -> Seq<
    StatementModel,
> {
    Seq::new(statements.len(), |i: int| plain_statement(statements[i])).push(
        record_statement(name),
    )
}

/// Builds the statement that creates the tracking table unless it exists.
pub fn tracking_table() -> (s: Statement)
    ensures
        s@ == tracking_table_statement(),
{
    let s = Statement {
        sql: concat3(
            "CREATE TABLE IF NOT EXISTS ",
            MIGRATION_TABLE_NAME,
            "(id INTEGER PRIMARY KEY AUTOINCREMENT, name TEXT NOT NULL UNIQUE, applied_at TEXT NOT NULL DEFAULT CURRENT_TIMESTAMP);",
        ),
        bindings: Vec::new(),
    };
    assert(s@.bindings =~= Seq::<BindingModel>::empty());
    s
}

/// Builds the statement that looks `name` up in the tracking table.
pub fn lookup(name: &str) -> (s: Statement)
    ensures
        s@ == lookup_statement(name@),
{
    let mut bindings: Vec<Binding> = Vec::new();
    bindings.push(Binding::Text(String::from_str(name)));
    let s = Statement {
        sql: concat3("SELECT id FROM ", MIGRATION_TABLE_NAME, " WHERE name = ? LIMIT 1;"),
        bindings,
    };
    assert(s@.bindings =~= seq![BindingModel::Text(name@)]);
    s
}

/// Builds the statement that records `name` in the tracking table.
pub fn record(name: &str) -> (s: Statement)
    ensures
        s@ == record_statement(name@),
{
    let mut bindings: Vec<Binding> = Vec::new();
    bindings.push(Binding::Text(String::from_str(name)));
    let s = Statement {
        sql: concat3("INSERT INTO ", MIGRATION_TABLE_NAME, " (name) VALUES (?)"),
        bindings,
    };
    assert(s@.bindings =~= seq![BindingModel::Text(name@)]);
    s
}

/// Builds the script of the migration `name` from its parsed statements.
pub fn script_of(name: &str, statements: &Vec<String>) -> (script: Vec<Statement>)
    ensures
        statement_views(script@) == migration_script(
            name@,
            Seq::new(statements@.len(), |i: int| statements@[i]@),
        ),
{
    let mut script: Vec<Statement> = Vec::new();
    let mut i: usize = 0;
    while i < statements.len()
        invariant
            i <= statements.len(),
            script.len() == i,
            forall|j: int| 0 <= j < i ==> script[j]@ == plain_statement(statements[j]@),
        decreases statements.len() - i,
    {
        let s = Statement { sql: statements[i].clone(), bindings: Vec::new() };
        assert(s@.bindings =~= Seq::<BindingModel>::empty());
        script.push(s);
        i = i + 1;
    }
    script.push(record(name));
    assert(statement_views(script@) =~= migration_script(
        name@,
        Seq::new(statements@.len(), |i: int| statements@[i]@),
    ));
    script
}

/// The migration engine of one database: the handle through which the caller
/// reaches the engine, and the directory that holds the migration files.
pub struct Migration<P> {
    pool: P,
    migrations_dir: String,
}

impl<P> Migration<P> {
    /// An engine over `pool` for the migrations in `migrations_dir`.
    pub fn new(pool: P, migrations_dir: String) -> (m: Self)
        ensures
            m.pool() == pool,
            m.directory() == migrations_dir@,
    {
        Migration { pool, migrations_dir }
    }

    /// The handle that this engine was made with.
    pub closed spec fn pool(&self) -> P {
        self.pool
    }

    /// The migrations directory.
    pub closed spec fn directory(&self) -> Seq<char> {
        self.migrations_dir@
    }

    /// The handle through which the caller performs the requests of a run.
    pub fn get_pool(&self) -> (pool: &P)
        ensures
            *pool == self.pool(),
    {
        &self.pool
    }

    /// The statement that creates the tracking table unless it exists.
    pub fn setup_migration_table() -> (s: Statement)
        ensures
            s@ == tracking_table_statement(),
    {
        tracking_table()
    }

    /// Starts a run: the machine in its initial state, and its first request.
    pub fn run(&self) -> (r: (MigrationRun, Request))
        ensures
            r.0@ == RunModel::initial(self.directory()),
            r.0@.wf(),
            Some(r.1@) == r.0@.awaiting(),
    {
        MigrationRun::start(self.migrations_dir.clone())
    }
}

} // verus!
