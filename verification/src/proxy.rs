//! The dynamic SQL proxy: single statements and all-or-nothing batches against
//! the installed database.

use vstd::prelude::*;
use crate::domain::AppState;
use crate::error::{concat3, ErrorModel, StoreError};
use crate::text::{is_prefix, starts_with, to_uppercase, trim, trimmed, uppercased};
use crate::transaction::{
    ledger_of, lemma_all_or_nothing, statement_views, Command, CommandModel, Failure, Phase,
    Reply, Stage, Statement, StatementModel, Transaction, TransactionModel,
};
use crate::value::{bind_params, bindings_of, row_views, rows_of, rows_to_sql_rows};
pub use crate::value::{SQLQuery, SQLRow};

verus! {

/// Whether a normalized text begins with a transaction-control keyword.
pub open spec fn begins_with_keyword(normalized: Seq<char>) -> bool {
    is_prefix("BEGIN"@, normalized) || is_prefix("COMMIT"@, normalized) || is_prefix(
        "ROLLBACK"@,
        normalized,
    )
}

/// Whether a statement is transaction control: trimmed and in upper case, it
/// begins with `BEGIN`, `COMMIT` or `ROLLBACK`.
pub open spec fn is_transaction_control(sql: Seq<char>) -> bool {
    begins_with_keyword(uppercased(trimmed(sql)))
}

/// Whether a text that is trimmed and in upper case begins with a
/// transaction-control keyword.
pub fn starts_with_transaction_keyword(normalized: &str) -> (r: bool)
    ensures
        r == begins_with_keyword(normalized@),
{
    starts_with(normalized, "BEGIN") || starts_with(normalized, "COMMIT") || starts_with(
        normalized,
        "ROLLBACK",
    )
}

/// Whether a statement is transaction control.
pub fn controls_transaction(sql: &str) -> (r: bool)
    ensures
        r == is_transaction_control(sql@),
{
    let normalized = to_uppercase(trim(sql));
    starts_with_transaction_keyword(normalized.as_str())
}

/// The statement that a query becomes: its text, and its parameters bound in
/// the order supplied.
pub open spec fn statement_of(query: SQLQuery) -> StatementModel {
    StatementModel { sql: query.sql@, bindings: bindings_of(query.params@) }
}

/// The script of a batch: one statement for each query, in order.
pub open spec fn batch_script(queries: Seq<SQLQuery>) -> Seq<StatementModel> {
    Seq::new(queries.len(), |i: int| statement_of(queries[i]))
}

/// Binds a query.
pub fn prepare(query: &SQLQuery) -> (statement: Statement)
    ensures
        statement@ == statement_of(*query),
{
    Statement { sql: query.sql.clone(), bindings: bind_params(&query.params) }
}

/// Admits a single statement: transaction control is refused before anything
/// else, whether or not a database is installed; then a database must be
/// installed; then the statement is bound, for the caller to run it on the
/// pool and collect all its rows.
pub fn execute_single_sql<P>(app_state: &AppState<P>, query: &SQLQuery) -> (r: Result<
    Statement,
    StoreError,
>)
    ensures
        match r {
            Ok(statement) => {
                &&& !is_transaction_control(query.sql@)
                &&& app_state.db is Some
                &&& statement@ == statement_of(*query)
            },
            Err(e) => if is_transaction_control(query.sql@) {
                e@ == ErrorModel::InvalidOperation
            } else {
                app_state.db is None && e@ == ErrorModel::NotInitialized
            },
        },
{
    if controls_transaction(query.sql.as_str()) {
        return Err(StoreError::InvalidOperation);
    }
    match &app_state.db {
        None => Err(StoreError::NotInitialized),
        Some(_) => Ok(prepare(query)),
    }
}

/// The result of a single statement from the engine's reply: the rows
/// re-encoded in the engine's order, or the engine's error.
pub fn single_result(reply: Reply) -> (r: Result<Vec<SQLRow>, StoreError>)
    ensures
        match reply {
            Ok(rows) => r is Ok && row_views(r->Ok_0@) == rows_of(rows@),
            Err(message) => r is Err && r->Err_0@ == ErrorModel::Engine(message@),
        },
{
    match reply {
        Ok(rows) => Ok(rows_to_sql_rows(&rows)),
        Err(message) => Err(StoreError::Engine(message)),
    }
}

/// Admits a batch: a database must be installed; then the queries are bound
/// and run in one transaction, which opens here.
pub fn execute_batch_sql<P>(app_state: &AppState<P>, queries: &Vec<SQLQuery>) -> (r: Result<
    (Transaction, Command),
    StoreError,
>)
    ensures
        r is Err <==> app_state.db is None,
        r is Err ==> r->Err_0@ == ErrorModel::NotInitialized,
        r is Ok ==> {
            &&& r->Ok_0.0@ == TransactionModel::initial(batch_script(queries@))
            &&& r->Ok_0.0@.wf()
            &&& r->Ok_0.1@ == CommandModel::Begin
        },
{
    match &app_state.db {
        None => Err(StoreError::NotInitialized),
        Some(_) => {
            let mut script: Vec<Statement> = Vec::new();
            let mut i: usize = 0;
            while i < queries.len()
                invariant
                    i <= queries.len(),
                    script.len() == i,
                    forall|j: int| 0 <= j < i ==> script[j]@ == statement_of(queries[j]),
                decreases queries.len() - i,
            {
                script.push(prepare(&queries[i]));
                i = i + 1;
            }
            assert(statement_views(script@) =~= batch_script(queries@));
            Ok(Transaction::open(script))
        },
    }
}

/// The error of a batch that failed: a failed query is reported with its SQL
/// text; a failure to open or to commit is the engine's own.
pub open spec fn batch_error(queries: Seq<SQLQuery>, stage: Stage, message: Seq<char>)
    -> ErrorModel {
    match stage {
        Stage::Statement(k) => if k < queries.len() {
            ErrorModel::Engine("Error executing '"@ + queries[k as int].sql@ + "': "@ + message)
        } else {
            ErrorModel::Engine(message)
        },
        _ => ErrorModel::Engine(message),
    }
}

/// The result of a batch from the outcome of its transaction: the rows of
/// each query at the query's position, or the error.
pub fn batch_result(outcome: Result<Vec<Vec<SQLRow>>, Failure>, queries: &Vec<SQLQuery>) -> (r:
    Result<Vec<Vec<SQLRow>>, StoreError>)
    ensures
        match outcome {
            Ok(results) => r == Ok::<Vec<Vec<SQLRow>>, StoreError>(results),
            Err(failure) => r is Err && r->Err_0@ == batch_error(
                queries@,
                failure.stage,
                failure.message@,
            ),
        },
{
    match outcome {
        Ok(results) => Ok(results),
        Err(failure) => {
            let Failure { stage, message } = failure;
            match stage {
                Stage::Statement(k) => {
                    if k < queries.len() {
                        let mut text = concat3("Error executing '", queries[k].sql.as_str(), "': ");
                        text.append(message.as_str());
                        Err(StoreError::Engine(text))
                    } else {
                        Err(StoreError::Engine(message))
                    }
                },
                _ => Err(StoreError::Engine(message)),
            }
        },
    }
}

/// A batch is all or nothing. When its transaction is over, either it
/// committed, every query is durable and has its rows at its position, or it
/// failed and no query of the batch is durable. No transaction stays open.
pub proof fn lemma_batch_is_atomic(queries: Seq<SQLQuery>, t: TransactionModel)
    requires
        t.wf(),
        t.script == batch_script(queries),
        t.phase == Phase::Finished,
    ensures
        t.failure is None ==> ledger_of(t.history).durable == batch_script(queries)
            && t.results.len() == queries.len(),
        t.failure is Some ==> ledger_of(t.history).durable == Seq::<StatementModel>::empty(),
        ledger_of(t.history).pending is None,
{
    lemma_all_or_nothing(t);
}

} // verus!
