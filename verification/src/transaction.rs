//! One all-or-nothing transaction, as a machine that the caller drives: the
//! machine names the next command, the caller performs it on the engine and
//! reports how it went.

use vstd::prelude::*;
use crate::value::{
    binding_views, row_views, rows_of, rows_to_sql_rows, Binding, BindingModel, RawCell, RowModel,
    SQLRow,
};

verus! {

/// A statement ready for the engine: SQL text and the bindings of its
/// placeholders, in order.
#[derive(Clone, Debug, PartialEq, Eq)]
pub struct Statement {
    pub sql: String,
    pub bindings: Vec<Binding>,
}

/// The mathematical content of a [`Statement`].
pub struct StatementModel {
    pub sql: Seq<char>,
    pub bindings: Seq<BindingModel>,
}

impl View for Statement {
    type V = StatementModel;

    open spec fn view(&self) -> StatementModel {
        StatementModel { sql: self.sql@, bindings: binding_views(self.bindings@) }
    }
}

/// The views of a list of statements.
pub open spec fn statement_views(script: Seq<Statement>) -> Seq<StatementModel> {
    Seq::new(script.len(), |i: int| script[i]@)
}

/// A copy of a binding.
pub fn copy_binding(binding: &Binding) -> (copy: Binding)
    ensures
        copy@ == binding@,
{
    match binding {
        Binding::Null => Binding::Null,
        Binding::Bool(b) => Binding::Bool(*b),
        Binding::Integer(i) => Binding::Integer(*i),
        Binding::Real(bits) => Binding::Real(*bits),
        Binding::Text(s) => Binding::Text(s.clone()),
    }
}

/// A copy of a statement.
pub fn copy_statement(statement: &Statement) -> (copy: Statement)
    ensures
        copy@ == statement@,
{
    let mut bindings: Vec<Binding> = Vec::new();
    let mut i: usize = 0;
    while i < statement.bindings.len()
        invariant
            i <= statement.bindings.len(),
            bindings.len() == i,
            forall|j: int| 0 <= j < i ==> bindings[j]@ == statement.bindings[j]@,
        decreases statement.bindings.len() - i,
    {
        bindings.push(copy_binding(&statement.bindings[i]));
        i = i + 1;
    }
    assert(binding_views(bindings@) =~= binding_views(statement.bindings@));
    Statement { sql: statement.sql.clone(), bindings }
}

/// What the caller is asked to do on the engine.
#[derive(Clone, Debug, PartialEq, Eq)]
pub enum Command {
    /// Open a transaction.
    Begin,
    /// Run the statement inside the open transaction and collect its rows.
    Run(Statement),
    /// Commit the open transaction.
    Commit,
    /// Roll the open transaction back.
    Rollback,
}

/// The mathematical content of a [`Command`].
pub enum CommandModel {
    Begin,
    Run(StatementModel),
    Commit,
    Rollback,
}

impl View for Command {
    type V = CommandModel;

    open spec fn view(&self) -> CommandModel {
        match self {
            Command::Begin => CommandModel::Begin,
            Command::Run(statement) => CommandModel::Run(statement@),
            Command::Commit => CommandModel::Commit,
            Command::Rollback => CommandModel::Rollback,
        }
    }
}

/// The view of a command that may be absent.
pub open spec fn command_view(command: Option<Command>) -> Option<CommandModel> {
    match command {
        Some(c) => Some(c@),
        None => None,
    }
}

/// One command together with how the engine answered it.
pub struct Exchange {
    pub command: CommandModel,
    pub ok: bool,
}

/// What a log of exchanges has made of the store: the statements that are
/// durable, and those of a transaction that is still open.
pub struct Ledger {
    pub durable: Seq<StatementModel>,
    pub pending: Option<Seq<StatementModel>>,
}

/// The effect of one exchange. A transaction opens when `Begin` succeeds. A
/// statement that succeeds joins the open transaction, or is durable at once
/// where none is open; one that fails leaves no trace. A successful `Commit`
/// makes the open transaction durable, a failed one leaves it open, and a
/// `Rollback` discards it however it is answered.
pub open spec fn settle(ledger: Ledger, exchange: Exchange) -> Ledger {
    match exchange.command {
        CommandModel::Begin => if exchange.ok && ledger.pending is None {
            Ledger { pending: Some(Seq::empty()), ..ledger }
        } else {
            ledger
        },
        CommandModel::Run(statement) => if !exchange.ok {
            ledger
        } else {
            match ledger.pending {
                Some(pending) => Ledger { pending: Some(pending.push(statement)), ..ledger },
                None => Ledger { durable: ledger.durable.push(statement), ..ledger },
            }
        },
        CommandModel::Commit => match ledger.pending {
            Some(pending) => if exchange.ok {
                Ledger { durable: ledger.durable + pending, pending: None }
            } else {
                ledger
            },
            None => ledger,
        },
        CommandModel::Rollback => Ledger { pending: None, ..ledger },
    }
}

/// The ledger after a log of exchanges, starting from an empty store.
pub open spec fn ledger_of(log: Seq<Exchange>) -> Ledger
    decreases log.len(),
{
    if log.len() == 0 {
        Ledger { durable: Seq::empty(), pending: None }
    } else {
        settle(ledger_of(log.drop_last()), log.last())
    }
}

/// Where a transaction failed.
#[derive(Clone, Copy, Debug, PartialEq, Eq)]
pub enum Stage {
    /// The transaction could not be opened.
    Begin,
    /// The statement at this position of the script failed.
    Statement(usize),
    /// The commit failed.
    Commit,
}

/// Why a transaction did not commit.
#[derive(Clone, Debug, PartialEq, Eq)]
pub struct Failure {
    pub stage: Stage,
    /// The engine's message.
    pub message: String,
}

/// The mathematical content of a [`Failure`].
pub struct FailureModel {
    pub stage: Stage,
    pub message: Seq<char>,
}

impl View for Failure {
    type V = FailureModel;

    open spec fn view(&self) -> FailureModel {
        FailureModel { stage: self.stage, message: self.message@ }
    }
}

/// What the machine waits for.
#[derive(Clone, Copy, Debug, PartialEq, Eq)]
pub enum Phase {
    /// The answer to `Begin`.
    Opening,
    /// The answer to the statement at the cursor.
    Running,
    /// The answer to `Commit`.
    Committing,
    /// The answer to `Rollback`.
    Aborting,
    /// Nothing: the transaction is over.
    Finished,
}

/// A transaction in progress.
pub struct Transaction {
    script: Vec<Statement>,
    phase: Phase,
    cursor: usize,
    results: Vec<Vec<SQLRow>>,
    failure: Option<Failure>,
    history: Ghost<Seq<Exchange>>,
}

/// The mathematical content of a [`Transaction`].
pub struct TransactionModel {
    /// The statements to run, in order.
    pub script: Seq<StatementModel>,
    pub phase: Phase,
    /// How many statements the engine has acknowledged.
    pub cursor: nat,
    /// The rows of each acknowledged statement.
    pub results: Seq<Seq<RowModel>>,
    /// The failure that ended or is ending the transaction.
    pub failure: Option<FailureModel>,
    /// Every command answered so far, in order.
    pub history: Seq<Exchange>,
}

/// How the engine answered a command: its rows (none for `Begin`, `Commit` and
/// `Rollback`), or its message on failure.
pub type Reply = Result<Vec<Vec<RawCell>>, String>;

/// The mathematical content of a [`Reply`]: the re-encoded rows, or the message.
pub type ReplyModel = Result<Seq<RowModel>, Seq<char>>;

/// The view of a reply.
pub open spec fn reply_view(reply: Reply) -> ReplyModel {
    match reply {
        Ok(rows) => Ok(rows_of(rows@)),
        Err(message) => Err(message@),
    }
}

impl TransactionModel {
    /// The command whose answer the machine waits for.
    pub open spec fn awaiting(self) -> Option<CommandModel> {
        match self.phase {
            Phase::Opening => Some(CommandModel::Begin),
            Phase::Running => Some(CommandModel::Run(self.script[self.cursor as int])),
            Phase::Committing => Some(CommandModel::Commit),
            Phase::Aborting => Some(CommandModel::Rollback),
            Phase::Finished => None,
        }
    }

    /// The transaction is over and has committed.
    pub open spec fn committed(self) -> bool {
        self.phase == Phase::Finished && self.failure is None
    }

    /// The state before anything was answered.
    pub open spec fn initial(script: Seq<StatementModel>) -> TransactionModel {
        TransactionModel {
            script,
            phase: Phase::Opening,
            cursor: 0,
            results: Seq::empty(),
            failure: None,
            history: Seq::empty(),
        }
    }

    /// The state after the awaited command was answered. Statements run in
    /// order; the commit follows the last of them; the first failure stops the
    /// script, and is followed by a rollback unless it was `Begin` that failed.
    pub open spec fn next(self, reply: ReplyModel) -> TransactionModel {
        if self.phase == Phase::Finished {
            self
        } else {
            let history = self.history.push(
                Exchange { command: self.awaiting()->0, ok: reply is Ok },
            );
            match self.phase {
                Phase::Opening => match reply {
                    Ok(_) => TransactionModel {
                        phase: if self.script.len() == 0 {
                            Phase::Committing
                        } else {
                            Phase::Running
                        },
                        history,
                        ..self
                    },
                    Err(message) => TransactionModel {
                        phase: Phase::Finished,
                        failure: Some(FailureModel { stage: Stage::Begin, message }),
                        history,
                        ..self
                    },
                },
                Phase::Running => match reply {
                    Ok(rows) => TransactionModel {
                        phase: if self.cursor + 1 == self.script.len() {
                            Phase::Committing
                        } else {
                            Phase::Running
                        },
                        cursor: self.cursor + 1,
                        results: self.results.push(rows),
                        history,
                        ..self
                    },
                    Err(message) => TransactionModel {
                        phase: Phase::Aborting,
                        failure: Some(
                            FailureModel {
                                stage: Stage::Statement(self.cursor as usize),
                                message,
                            },
                        ),
                        history,
                        ..self
                    },
                },
                Phase::Committing => match reply {
                    Ok(_) => TransactionModel { phase: Phase::Finished, history, ..self },
                    Err(message) => TransactionModel {
                        phase: Phase::Aborting,
                        failure: Some(FailureModel { stage: Stage::Commit, message }),
                        history,
                        ..self
                    },
                },
                _ => TransactionModel { phase: Phase::Finished, history, ..self },
            }
        }
    }

    /// What holds of every transaction that `initial` and `next` can reach.
    pub open spec fn wf(self) -> bool {
        &&& self.cursor <= self.script.len()
        &&& self.script.len() <= usize::MAX
        &&& self.results.len() == self.cursor
        &&& match self.phase {
            Phase::Opening => {
                &&& self.cursor == 0
                &&& self.failure is None
                &&& ledger_of(self.history) == Ledger { durable: Seq::empty(), pending: None }
            },
            Phase::Running => {
                &&& self.cursor < self.script.len()
                &&& self.failure is None
                &&& ledger_of(self.history) == Ledger {
                    durable: Seq::empty(),
                    pending: Some(self.script.take(self.cursor as int)),
                }
            },
            Phase::Committing => {
                &&& self.cursor == self.script.len()
                &&& self.failure is None
                &&& ledger_of(self.history) == Ledger {
                    durable: Seq::empty(),
                    pending: Some(self.script),
                }
            },
            Phase::Aborting => {
                &&& self.failure is Some
                &&& self.failure->0.stage != Stage::Begin
                &&& ledger_of(self.history).durable == Seq::<StatementModel>::empty()
            },
            Phase::Finished => {
                if self.failure is None {
                    &&& self.cursor == self.script.len()
                    &&& ledger_of(self.history) == Ledger { durable: self.script, pending: None }
                } else {
                    ledger_of(self.history) == Ledger { durable: Seq::empty(), pending: None }
                }
            },
        }
    }
}

/// The initial state is well formed.
pub proof fn lemma_initial_wf(script: Seq<StatementModel>)
    requires
        script.len() <= usize::MAX,
    ensures
        TransactionModel::initial(script).wf(),
{
}

/// Every step keeps the state well formed.
pub proof fn lemma_next_wf(m: TransactionModel, reply: ReplyModel)
    requires
        m.wf(),
    ensures
        m.next(reply).wf(),
{
    if m.phase != Phase::Finished {
        let n = m.next(reply);
        assert(n.history.drop_last() =~= m.history);
        assert(ledger_of(n.history) == settle(ledger_of(m.history), n.history.last()));
        match m.phase {
            Phase::Opening => {
                assert(m.script.take(0) =~= Seq::<StatementModel>::empty());
                if m.script.len() == 0 {
                    assert(m.script =~= Seq::<StatementModel>::empty());
                }
            },
            Phase::Running => {
                assert(m.script.take(m.cursor as int).push(m.script[m.cursor as int])
                    =~= m.script.take(m.cursor as int + 1));
                assert(m.script.take(m.script.len() as int) =~= m.script);
            },
            Phase::Committing => {
                assert(Seq::<StatementModel>::empty() + m.script =~= m.script);
            },
            _ => {},
        }
    }
}

/// A transaction is all or nothing: once it is over, the store holds the whole
/// script if it committed and none of it otherwise, and no transaction is left
/// open; while it runs, nothing of it is durable.
pub proof fn lemma_all_or_nothing(m: TransactionModel)
    requires
        m.wf(),
    ensures
        ledger_of(m.history).durable == if m.committed() {
            m.script
        } else {
            Seq::<StatementModel>::empty()
        },
        m.phase == Phase::Finished ==> ledger_of(m.history).pending is None,
{
}

/// The views of the rows of each statement of a script.
pub open spec fn result_views(results: Seq<Vec<SQLRow>>) -> Seq<Seq<RowModel>> {
    Seq::new(results.len(), |i: int| row_views(results[i]@))
}

/// The view of a failure that may be absent.
pub open spec fn failure_view(failure: Option<Failure>) -> Option<FailureModel> {
    match failure {
        Some(f) => Some(f@),
        None => None,
    }
}

/// The outcome of a finished transaction: the rows of each statement, in the
/// order of the script, or the failure. `None` while it is not over.
pub open spec fn outcome_of(m: TransactionModel) -> Option<Result<Seq<Seq<RowModel>>, FailureModel>> {
    if m.phase != Phase::Finished {
        None
    } else {
        match m.failure {
            None => Some(Ok(m.results)),
            Some(failure) => Some(Err(failure)),
        }
    }
}

/// The view of an outcome.
pub open spec fn outcome_view(outcome: Option<Result<Vec<Vec<SQLRow>>, Failure>>) -> Option<
    Result<Seq<Seq<RowModel>>, FailureModel>,
> {
    match outcome {
        None => None,
        Some(Ok(results)) => Some(Ok(result_views(results@))),
        Some(Err(failure)) => Some(Err(failure@)),
    }
}

impl View for Transaction {
    type V = TransactionModel;

    closed spec fn view(&self) -> TransactionModel {
        TransactionModel {
            script: statement_views(self.script@),
            phase: self.phase,
            cursor: self.cursor as nat,
            results: result_views(self.results@),
            failure: failure_view(self.failure),
            history: self.history@,
        }
    }
}

impl Transaction {
    /// Starts a transaction over `script` and asks for `Begin`.
    pub fn open(script: Vec<Statement>) -> (r: (Transaction, Command))
        ensures
            r.0@ == TransactionModel::initial(statement_views(script@)),
            r.0@.wf(),
            r.1@ == CommandModel::Begin,
    {
        let length: usize = script.len();
        let transaction = Transaction {
            script,
            phase: Phase::Opening,
            cursor: 0,
            results: Vec::new(),
            failure: None,
            history: Ghost(Seq::empty()),
        };
        proof {
            assert(transaction@.results =~= Seq::<Seq<RowModel>>::empty());
            assert(transaction@.script.len() == length);
            lemma_initial_wf(transaction@.script);
        }
        (transaction, Command::Begin)
    }

    /// The number of statements in the script.
    pub fn script_len(&self) -> (n: usize)
        ensures
            n == self@.script.len(),
    {
        self.script.len()
    }

    /// Whether the transaction is over.
    pub fn is_finished(&self) -> (r: bool)
        ensures
            r == (self@.phase == Phase::Finished),
    {
        match self.phase {
            Phase::Finished => true,
            _ => false,
        }
    }

    /// Takes the engine's answer to the awaited command and names the next
    /// command, or none when the transaction is over. An answer that arrives
    /// after the end changes nothing.
    pub fn advance(self, reply: Reply) -> (r: (Transaction, Option<Command>))
        requires
            self@.wf(),
        ensures
            r.0@ == self@.next(reply_view(reply)),
            r.0@.wf(),
            command_view(r.1) == r.0@.awaiting(),
    {
        proof {
            lemma_next_wf(self@, reply_view(reply));
        }
        let ghost before = self@;
        let Transaction { script, phase, cursor, mut results, failure, history } = self;
        let ghost log = history@.push(Exchange { command: before.awaiting()->0, ok: reply is Ok });
        match phase {
            Phase::Finished => {
                let t = Transaction { script, phase, cursor, results, failure, history };
                (t, None)
            },
            Phase::Opening => match reply {
                Ok(_) => {
                    if script.len() == 0 {
                        let t = Transaction {
                            script,
                            phase: Phase::Committing,
                            cursor,
                            results,
                            failure,
                            history: Ghost(log),
                        };
                        (t, Some(Command::Commit))
                    } else {
                        let first = copy_statement(&script[0]);
                        let t = Transaction {
                            script,
                            phase: Phase::Running,
                            cursor,
                            results,
                            failure,
                            history: Ghost(log),
                        };
                        (t, Some(Command::Run(first)))
                    }
                },
                Err(message) => {
                    let t = Transaction {
                        script,
                        phase: Phase::Finished,
                        cursor,
                        results,
                        failure: Some(Failure { stage: Stage::Begin, message }),
                        history: Ghost(log),
                    };
                    (t, None)
                },
            },
            Phase::Running => match reply {
                Ok(rows) => {
                    let converted = rows_to_sql_rows(&rows);
                    results.push(converted);
                    proof {
                        assert(result_views(results@) =~= before.results.push(rows_of(rows@)));
                    }
                    if cursor + 1 == script.len() {
                        let t = Transaction {
                            script,
                            phase: Phase::Committing,
                            cursor: cursor + 1,
                            results,
                            failure,
                            history: Ghost(log),
                        };
                        (t, Some(Command::Commit))
                    } else {
                        let following = copy_statement(&script[cursor + 1]);
                        let t = Transaction {
                            script,
                            phase: Phase::Running,
                            cursor: cursor + 1,
                            results,
                            failure,
                            history: Ghost(log),
                        };
                        (t, Some(Command::Run(following)))
                    }
                },
                Err(message) => {
                    let t = Transaction {
                        script,
                        phase: Phase::Aborting,
                        cursor,
                        results,
                        failure: Some(Failure { stage: Stage::Statement(cursor), message }),
                        history: Ghost(log),
                    };
                    (t, Some(Command::Rollback))
                },
            },
            Phase::Committing => match reply {
                Ok(_) => {
                    let t = Transaction {
                        script,
                        phase: Phase::Finished,
                        cursor,
                        results,
                        failure,
                        history: Ghost(log),
                    };
                    (t, None)
                },
                Err(message) => {
                    let t = Transaction {
                        script,
                        phase: Phase::Aborting,
                        cursor,
                        results,
                        failure: Some(Failure { stage: Stage::Commit, message }),
                        history: Ghost(log),
                    };
                    (t, Some(Command::Rollback))
                },
            },
            Phase::Aborting => {
                let t = Transaction {
                    script,
                    phase: Phase::Finished,
                    cursor,
                    results,
                    failure,
                    history: Ghost(log),
                };
                (t, None)
            },
        }
    }

    /// The outcome of the transaction once it is over: the rows of each
    /// statement, or the failure.
    pub fn outcome(self) -> (r: Option<Result<Vec<Vec<SQLRow>>, Failure>>)
        ensures
            outcome_view(r) == outcome_of(self@),
    {
        let Transaction { script, phase, cursor, results, failure, history } = self;
        match phase {
            Phase::Finished => match failure {
                None => Some(Ok(results)),
                Some(failure) => Some(Err(failure)),
            },
            _ => None,
        }
    }
}

} // verus!
