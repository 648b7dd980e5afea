//! A run of the migration engine, as a machine that the caller drives: the
//! machine names the next request, the caller performs it on the engine or the
//! file system and hands the answer back.

use vstd::prelude::*;
use crate::discovery::{discovered, get_migration_files, texts};
use crate::error::{concat3, ErrorModel, StoreError};
use crate::migration::{
    fault_message, lookup, lookup_statement, migration_script, parse_error, parse_sql, parsed,
    record_statement, script_of, tracking_table, tracking_table_statement,
};
use crate::transaction::{
    ledger_of, lemma_all_or_nothing, reply_view, Command, CommandModel, Failure, Phase, Reply,
    ReplyModel, Stage, Statement, StatementModel, Transaction, TransactionModel,
};
use crate::value::{rows_of, RawCell};

verus! {

/// What the caller is asked to do.
#[derive(Clone, Debug, PartialEq, Eq)]
pub enum Request {
    /// Run the statement on the pool, outside any transaction, and collect its rows.
    Execute(Statement),
    /// List the names of the entries of the directory.
    ListDirectory(String),
    /// Read the named file of the directory as text.
    ReadFile { directory: String, name: String },
    /// Perform the command on the transaction of the current migration.
    Transact(Command),
}

/// The mathematical content of a [`Request`].
pub enum RequestModel {
    Execute(StatementModel),
    ListDirectory(Seq<char>),
    ReadFile { directory: Seq<char>, name: Seq<char> },
    Transact(CommandModel),
}

impl View for Request {
    type V = RequestModel;

    open spec fn view(&self) -> RequestModel {
        match self {
            Request::Execute(statement) => RequestModel::Execute(statement@),
            Request::ListDirectory(directory) => RequestModel::ListDirectory(directory@),
            Request::ReadFile { directory, name } => RequestModel::ReadFile {
                directory: directory@,
                name: name@,
            },
            Request::Transact(command) => RequestModel::Transact(command@),
        }
    }
}

/// The view of a request that may be absent.
pub open spec fn request_view(request: Option<Request>) -> Option<RequestModel> {
    match request {
        Some(r) => Some(r@),
        None => None,
    }
}

/// How a request went.
#[derive(Clone, Debug, PartialEq, Eq)]
pub enum Answer {
    /// The engine did what was asked; the rows that it gave, if any.
    Rows(Vec<Vec<RawCell>>),
    /// The names of the entries of the directory.
    Names(Vec<String>),
    /// The directory does not exist.
    Missing,
    /// The text of the file.
    Text(String),
    /// The request failed, with this message.
    Failed(String),
}

/// The message that stands for an answer of the wrong kind.
pub open spec fn unexpected() -> Seq<char> {
    "unexpected answer"@
}

/// An answer as the reply to a command on a transaction.
pub open spec fn engine_reply(answer: Answer) -> ReplyModel {
    match answer {
        Answer::Rows(rows) => Ok(rows_of(rows@)),
        Answer::Failed(message) => Err(message@),
        _ => Err(unexpected()),
    }
}

/// What the run waits for.
#[derive(Clone, Copy, Debug, PartialEq, Eq)]
pub enum RunPhase {
    /// The tracking table is being created.
    Preparing,
    /// The migrations directory is being listed.
    Listing,
    /// The current file is being read.
    Reading,
    /// The current file is being looked up in the tracking table.
    Checking,
    /// The transaction of the current file is under way.
    Applying,
    /// Nothing: the run is over.
    Finished,
}

/// What became of a file that the run has dealt with.
pub struct Entry {
    pub name: Seq<char>,
    /// The text that was read for the file.
    pub text: Seq<char>,
    /// The tracking table held the file already, so it was skipped.
    pub found_applied: bool,
    /// The transaction that applied the file, unless it was skipped.
    pub transaction: Option<TransactionModel>,
}

impl Entry {
    /// A skipped file has no transaction; an applied file has one that
    /// committed the file's script.
    pub open spec fn wf(self) -> bool {
        if self.found_applied {
            self.transaction is None
        } else {
            &&& self.transaction is Some
            &&& self.transaction->0.wf()
            &&& self.transaction->0.committed()
            &&& parsed(self.text) is Ok
            &&& self.transaction->0.script == migration_script(self.name, parsed(self.text)->Ok_0)
        }
    }
}

/// The number of files in a journal that were applied, not skipped.
pub open spec fn fresh(journal: Seq<Entry>) -> nat
    decreases journal.len(),
{
    if journal.len() == 0 {
        0
    } else {
        fresh(journal.drop_last()) + if journal.last().found_applied {
            0nat
        } else {
            1nat
        }
    }
}

/// The mathematical content of a [`MigrationRun`].
pub struct RunModel {
    /// The migrations directory.
    pub directory: Seq<char>,
    pub phase: RunPhase,
    /// The entries of the directory, as they were listed.
    pub listing: Seq<Seq<char>>,
    /// The migration files in the order in which they apply.
    pub files: Seq<Seq<char>>,
    /// The position in `files` of the current file.
    pub index: nat,
    /// The number of migrations that this run has applied.
    pub applied: nat,
    /// The text of the current file, once read.
    pub text: Seq<char>,
    /// The transaction of the current file, while it is being applied.
    pub transaction: Option<TransactionModel>,
    /// How the run ended: the number of migrations newly applied, or the error.
    pub outcome: Option<Result<nat, ErrorModel>>,
    /// The files dealt with so far, in order.
    pub journal: Seq<Entry>,
    /// The transaction that failed, if the run ended on one.
    pub aborted: Option<TransactionModel>,
    /// The statements outside any transaction that the engine has
    /// acknowledged, in order.
    pub acknowledged: Seq<StatementModel>,
}

/// The error for a migration whose transaction failed: a failed statement of
/// the file is reported with the file's name; a failure to open, to record or
/// to commit is the engine's own.
pub open spec fn apply_error(name: Seq<char>, t: TransactionModel) -> ErrorModel {
    match t.failure {
        Some(failure) => match failure.stage {
            Stage::Statement(k) => if k + 1 < t.script.len() {
                ErrorModel::Migration { file: name, cause: failure.message }
            } else {
                ErrorModel::Engine(failure.message)
            },
            _ => ErrorModel::Engine(failure.message),
        },
        None => ErrorModel::Engine(unexpected()),
    }
}

impl RunModel {
    /// The state before anything was answered.
    pub open spec fn initial(directory: Seq<char>) -> RunModel {
        RunModel {
            directory,
            phase: RunPhase::Preparing,
            listing: Seq::empty(),
            files: Seq::empty(),
            index: 0,
            applied: 0,
            text: Seq::empty(),
            transaction: None,
            outcome: None,
            journal: Seq::empty(),
            aborted: None,
            acknowledged: Seq::empty(),
        }
    }

    /// The name of the current file.
    pub open spec fn current(self) -> Seq<char> {
        self.files[self.index as int]
    }

    /// The request whose answer the run waits for.
    pub open spec fn awaiting(self) -> Option<RequestModel> {
        match self.phase {
            RunPhase::Preparing => Some(RequestModel::Execute(tracking_table_statement())),
            RunPhase::Listing => Some(RequestModel::ListDirectory(self.directory)),
            RunPhase::Reading => Some(
                RequestModel::ReadFile { directory: self.directory, name: self.current() },
            ),
            RunPhase::Checking => Some(RequestModel::Execute(lookup_statement(self.current()))),
            RunPhase::Applying => match self.transaction {
                Some(t) => match t.awaiting() {
                    Some(command) => Some(RequestModel::Transact(command)),
                    None => None,
                },
                None => None,
            },
            RunPhase::Finished => None,
        }
    }

    /// The run ends with `outcome`.
    pub open spec fn finish(self, outcome: Result<nat, ErrorModel>) -> RunModel {
        RunModel { phase: RunPhase::Finished, outcome: Some(outcome), transaction: None, ..self }
    }

    /// The current file is dealt with: the run goes on to the next file, or
    /// ends with the number of migrations applied.
    pub open spec fn proceed(self, entry: Entry) -> RunModel {
        let applied = self.applied + if entry.found_applied {
            0nat
        } else {
            1nat
        };
        let moved = RunModel {
            index: self.index + 1,
            applied,
            journal: self.journal.push(entry),
            transaction: None,
            ..self
        };
        if self.index + 1 >= self.files.len() {
            moved.finish(Ok(applied))
        } else {
            RunModel { phase: RunPhase::Reading, ..moved }
        }
    }

    /// The state after the awaited request was answered.
    ///
    /// The tracking table comes first, then the listing. Each file in order is
    /// read, looked up, and skipped if the table holds it; otherwise its text is
    /// parsed and its script runs in a transaction of its own. The first failure
    /// ends the run: later files are not attempted.
    pub open spec fn next(self, answer: Answer) -> RunModel {
        match self.phase {
            RunPhase::Preparing => match answer {
                Answer::Rows(_) => RunModel {
                    phase: RunPhase::Listing,
                    acknowledged: self.acknowledged.push(tracking_table_statement()),
                    ..self
                },
                Answer::Failed(message) => self.finish(Err(ErrorModel::Engine(message@))),
                _ => self.finish(Err(ErrorModel::Engine(unexpected()))),
            },
            RunPhase::Listing => match answer {
                Answer::Names(names) => {
                    let listed = RunModel {
                        listing: texts(names@),
                        files: discovered(texts(names@)),
                        ..self
                    };
                    if listed.files.len() == 0 {
                        listed.finish(Ok(0))
                    } else {
                        RunModel { phase: RunPhase::Reading, ..listed }
                    }
                },
                Answer::Missing => self.finish(Err(ErrorModel::NotFound(self.directory))),
                Answer::Failed(message) => self.finish(Err(ErrorModel::Io(message@))),
                _ => self.finish(Err(ErrorModel::Engine(unexpected()))),
            },
            RunPhase::Reading => match answer {
                Answer::Text(text) => RunModel { phase: RunPhase::Checking, text: text@, ..self },
                Answer::Failed(message) => self.finish(
                    Err(
                        ErrorModel::Io(
                            "Failed to read migration "@ + self.current() + ": "@ + message@,
                        ),
                    ),
                ),
                _ => self.finish(Err(ErrorModel::Engine(unexpected()))),
            },
            RunPhase::Checking => match answer {
                Answer::Rows(rows) => {
                    let looked = RunModel {
                        acknowledged: self.acknowledged.push(lookup_statement(self.current())),
                        ..self
                    };
                    if rows@.len() > 0 {
                        looked.proceed(
                            Entry {
                                name: self.current(),
                                text: self.text,
                                found_applied: true,
                                transaction: None,
                            },
                        )
                    } else {
                        match parsed(self.text) {
                            Ok(statements) => RunModel {
                                phase: RunPhase::Applying,
                                transaction: Some(
                                    TransactionModel::initial(
                                        migration_script(self.current(), statements),
                                    ),
                                ),
                                ..looked
                            },
                            Err(fault) => looked.finish(
                                Err(ErrorModel::Parse(fault_message(fault))),
                            ),
                        }
                    }
                },
                Answer::Failed(message) => self.finish(Err(ErrorModel::Engine(message@))),
                _ => self.finish(Err(ErrorModel::Engine(unexpected()))),
            },
            RunPhase::Applying => match self.transaction {
                Some(before) => {
                    let t = before.next(engine_reply(answer));
                    if t.phase != Phase::Finished {
                        RunModel { transaction: Some(t), ..self }
                    } else if t.committed() {
                        self.proceed(
                            Entry {
                                name: self.current(),
                                text: self.text,
                                found_applied: false,
                                transaction: Some(t),
                            },
                        )
                    } else {
                        RunModel {
                            aborted: Some(t),
                            ..self.finish(Err(apply_error(self.current(), t)))
                        }
                    }
                },
                None => self.finish(Err(ErrorModel::Engine(unexpected()))),
            },
            RunPhase::Finished => self,
        }
    }

    /// What holds of every run that the machine can reach.
    pub open spec fn wf(self) -> bool {
        &&& self.index <= self.files.len()
        &&& self.files.len() <= usize::MAX
        &&& self.journal.len() == self.index
        &&& self.applied == fresh(self.journal)
        &&& self.phase == RunPhase::Preparing ==> self.acknowledged.len() == 0
        &&& self.phase != RunPhase::Preparing && (self.phase != RunPhase::Finished
            || self.outcome->0 is Ok) ==> self.acknowledged.len() > 0 && self.acknowledged[0]
            == tracking_table_statement()
        &&& forall|j: int|
            0 <= j < self.journal.len() ==> (#[trigger] self.journal[j]).name == self.files[j]
                && self.journal[j].wf()
        &&& match self.phase {
            RunPhase::Preparing | RunPhase::Listing => {
                &&& self.files.len() == 0
                &&& self.transaction is None
                &&& self.outcome is None
                &&& self.aborted is None
            },
            RunPhase::Reading | RunPhase::Checking => {
                &&& self.files == discovered(self.listing)
                &&& self.index < self.files.len()
                &&& self.transaction is None
                &&& self.outcome is None
                &&& self.aborted is None
            },
            RunPhase::Applying => {
                &&& self.files == discovered(self.listing)
                &&& self.index < self.files.len()
                &&& self.outcome is None
                &&& self.aborted is None
                &&& self.transaction is Some
                &&& self.transaction->0.wf()
                &&& self.transaction->0.phase != Phase::Finished
                &&& parsed(self.text) is Ok
                &&& self.transaction->0.script == migration_script(
                    self.current(),
                    parsed(self.text)->Ok_0,
                )
            },
            RunPhase::Finished => {
                &&& self.transaction is None
                &&& self.outcome is Some
                &&& match self.outcome->0 {
                    Ok(n) => {
                        &&& n == self.applied
                        &&& self.index == self.files.len()
                        &&& self.files == discovered(self.listing)
                        &&& self.aborted is None
                    },
                    Err(_) => match self.aborted {
                        Some(t) => {
                            &&& t.wf()
                            &&& t.phase == Phase::Finished
                            &&& !t.committed()
                            &&& self.index < self.files.len()
                            &&& parsed(self.text) is Ok
                            &&& t.script == migration_script(
                                self.current(),
                                parsed(self.text)->Ok_0,
                            )
                        },
                        None => true,
                    },
                }
            },
        }
    }
}

/// A journal has no more applied files than files.
pub proof fn lemma_fresh_bound(journal: Seq<Entry>)
    ensures
        fresh(journal) <= journal.len(),
    decreases journal.len(),
{
    if journal.len() > 0 {
        lemma_fresh_bound(journal.drop_last());
    }
}

/// The view of the outcome of a run.
pub open spec fn run_outcome_view(outcome: Option<Result<usize, StoreError>>) -> Option<
    Result<nat, ErrorModel>,
> {
    match outcome {
        None => None,
        Some(Ok(n)) => Some(Ok(n as nat)),
        Some(Err(e)) => Some(Err(e@)),
    }
}

/// The view of a transaction that may be absent.
pub open spec fn transaction_view(transaction: Option<Transaction>) -> Option<TransactionModel> {
    match transaction {
        Some(t) => Some(t@),
        None => None,
    }
}

/// The reply that an answer stands for on a transaction.
pub fn to_reply(answer: Answer) -> (reply: Reply)
    ensures
        reply_view(reply) == engine_reply(answer),
{
    match answer {
        Answer::Rows(rows) => Ok(rows),
        Answer::Failed(message) => Err(message),
        _ => Err(String::from_str("unexpected answer")),
    }
}

/// The error for an answer of the wrong kind.
pub fn unexpected_answer() -> (e: StoreError)
    ensures
        e@ == ErrorModel::Engine(unexpected()),
{
    StoreError::Engine(String::from_str("unexpected answer"))
}

/// A run of the migration engine in progress.
pub struct MigrationRun {
    directory: String,
    phase: RunPhase,
    files: Vec<String>,
    index: usize,
    applied: usize,
    text: String,
    transaction: Option<Transaction>,
    outcome: Option<Result<usize, StoreError>>,
    listing: Ghost<Seq<Seq<char>>>,
    journal: Ghost<Seq<Entry>>,
    aborted: Ghost<Option<TransactionModel>>,
    acknowledged: Ghost<Seq<StatementModel>>,
}

impl View for MigrationRun {
    type V = RunModel;

    closed spec fn view(&self) -> RunModel {
        RunModel {
            directory: self.directory@,
            phase: self.phase,
            listing: self.listing@,
            files: texts(self.files@),
            index: self.index as nat,
            applied: self.applied as nat,
            text: self.text@,
            transaction: transaction_view(self.transaction),
            outcome: run_outcome_view(self.outcome),
            journal: self.journal@,
            aborted: self.aborted@,
            acknowledged: self.acknowledged@,
        }
    }
}

impl MigrationRun {
    /// Starts a run over the migrations directory and asks for the tracking table.
    pub fn start(directory: String) -> (r: (MigrationRun, Request))
        ensures
            r.0@ == RunModel::initial(directory@),
            r.0@.wf(),
            Some(r.1@) == r.0@.awaiting(),
    {
        let run = MigrationRun {
            directory,
            phase: RunPhase::Preparing,
            files: Vec::new(),
            index: 0,
            applied: 0,
            text: String::new(),
            transaction: None,
            outcome: None,
            listing: Ghost(Seq::empty()),
            journal: Ghost(Seq::empty()),
            aborted: Ghost(None),
            acknowledged: Ghost(Seq::empty()),
        };
        proof {
            assert(run@.files =~= Seq::<Seq<char>>::empty());
        }
        (run, Request::Execute(tracking_table()))
    }

    /// Whether the run is over.
    pub fn is_finished(&self) -> (r: bool)
        ensures
            r == (self@.phase == RunPhase::Finished),
    {
        match self.phase {
            RunPhase::Finished => true,
            _ => false,
        }
    }

    /// How the run ended: the number of migrations newly applied, or the
    /// error. `None` while the run is not over.
    pub fn outcome(self) -> (r: Option<Result<usize, StoreError>>)
        ensures
            run_outcome_view(r) == self@.outcome,
    {
        self.outcome
    }

    /// Ends the run with an error.
    fn fail(self, error: StoreError) -> (r: (MigrationRun, Option<Request>))
        requires
            self@.wf(),
            self@.phase != RunPhase::Finished,
        ensures
            r.0@ == self@.finish(Err(error@)),
            r.0@.wf(),
            request_view(r.1) == r.0@.awaiting(),
    {
        let run = MigrationRun {
            phase: RunPhase::Finished,
            transaction: None,
            outcome: Some(Err(error)),
            ..self
        };
        (run, None)
    }

    /// The request for the file at the current position.
    fn read_current(&self) -> (request: Request)
        requires
            self.index < self.files.len(),
        ensures
            request@ == (RequestModel::ReadFile {
                directory: self@.directory,
                name: self@.current(),
            }),
    {
        Request::ReadFile {
            directory: self.directory.clone(),
            name: self.files[self.index].clone(),
        }
    }

    /// Moves on from the current file, which `entry` describes.
    fn proceed(self, found_applied: bool, Ghost(entry): Ghost<Entry>) -> (r: (
        MigrationRun,
        Option<Request>,
    ))
        requires
            self@.wf(),
            self@.phase == RunPhase::Checking,
            entry.wf(),
            entry.name == self@.current(),
            entry.found_applied == found_applied,
        ensures
            r.0@ == self@.proceed(entry),
            r.0@.wf(),
            request_view(r.1) == r.0@.awaiting(),
    {
        proof {
            lemma_fresh_bound(self.journal@);
            assert(self.journal@.push(entry).drop_last() =~= self.journal@);
        }
        let applied: usize = if found_applied {
            self.applied
        } else {
            self.applied + 1
        };
        let index: usize = self.index + 1;
        let journal = Ghost(self.journal@.push(entry));
        if index >= self.files.len() {
            let run = MigrationRun {
                phase: RunPhase::Finished,
                index,
                applied,
                outcome: Some(Ok(applied)),
                journal,
                ..self
            };
            (run, None)
        } else {
            let run = MigrationRun { phase: RunPhase::Reading, index, applied, journal, ..self };
            let request = run.read_current();
            (run, Some(request))
        }
    }

    /// The answer to the request for the tracking table.
    fn prepared(self, answer: Answer) -> (r: (MigrationRun, Option<Request>))
        requires
            self@.wf(),
            self@.phase == RunPhase::Preparing,
        ensures
            r.0@ == self@.next(answer),
            r.0@.wf(),
            request_view(r.1) == r.0@.awaiting(),
    {
        match answer {
            Answer::Rows(_) => {
                let request = Request::ListDirectory(self.directory.clone());
                let acknowledged = Ghost(self.acknowledged@.push(tracking_table_statement()));
                (MigrationRun { phase: RunPhase::Listing, acknowledged, ..self }, Some(request))
            },
            Answer::Failed(message) => self.fail(StoreError::Engine(message)),
            _ => self.fail(unexpected_answer()),
        }
    }

    /// The answer to the request for the listing.
    fn listed(self, answer: Answer) -> (r: (MigrationRun, Option<Request>))
        requires
            self@.wf(),
            self@.phase == RunPhase::Listing,
        ensures
            r.0@ == self@.next(answer),
            r.0@.wf(),
            request_view(r.1) == r.0@.awaiting(),
    {
        match answer {
            Answer::Names(names) => {
                let files = get_migration_files(&names);
                let listing = Ghost(texts(names@));
                if files.len() == 0 {
                    let run = MigrationRun {
                        phase: RunPhase::Finished,
                        files,
                        outcome: Some(Ok(0)),
                        listing,
                        ..self
                    };
                    (run, None)
                } else {
                    let run = MigrationRun { phase: RunPhase::Reading, files, listing, ..self };
                    let request = run.read_current();
                    (run, Some(request))
                }
            },
            Answer::Missing => {
                let error = StoreError::NotFound(self.directory.clone());
                self.fail(error)
            },
            Answer::Failed(message) => self.fail(StoreError::Io(message)),
            _ => self.fail(unexpected_answer()),
        }
    }

    /// The answer to the request for the text of the current file.
    fn read(self, answer: Answer) -> (r: (MigrationRun, Option<Request>))
        requires
            self@.wf(),
            self@.phase == RunPhase::Reading,
        ensures
            r.0@ == self@.next(answer),
            r.0@.wf(),
            request_view(r.1) == r.0@.awaiting(),
    {
        match answer {
            Answer::Text(text) => {
                let request = Request::Execute(lookup(self.files[self.index].as_str()));
                (MigrationRun { phase: RunPhase::Checking, text, ..self }, Some(request))
            },
            Answer::Failed(message) => {
                let mut text = concat3(
                    "Failed to read migration ",
                    self.files[self.index].as_str(),
                    ": ",
                );
                text.append(message.as_str());
                self.fail(StoreError::Io(text))
            },
            _ => self.fail(unexpected_answer()),
        }
    }

    /// The answer to the lookup of the current file.
    fn checked(self, answer: Answer) -> (r: (MigrationRun, Option<Request>))
        requires
            self@.wf(),
            self@.phase == RunPhase::Checking,
        ensures
            r.0@ == self@.next(answer),
            r.0@.wf(),
            request_view(r.1) == r.0@.awaiting(),
    {
        match answer {
            Answer::Rows(rows) => {
                let ghost before = self@;
                let acknowledged = Ghost(
                    self.acknowledged@.push(lookup_statement(self@.current())),
                );
                let looked = MigrationRun { acknowledged, ..self };
                if rows.len() > 0 {
                    let ghost entry = Entry {
                        name: before.current(),
                        text: before.text,
                        found_applied: true,
                        transaction: None,
                    };
                    looked.proceed(true, Ghost(entry))
                } else {
                    match parse_sql(looked.text.as_str()) {
                        Ok(statements) => {
                            let script = script_of(
                                looked.files[looked.index].as_str(),
                                &statements,
                            );
                            let (opened, command) = Transaction::open(script);
                            let run = MigrationRun {
                                phase: RunPhase::Applying,
                                transaction: Some(opened),
                                ..looked
                            };
                            (run, Some(Request::Transact(command)))
                        },
                        Err(fault) => {
                            let error = parse_error(&fault);
                            looked.fail(error)
                        },
                    }
                }
            },
            Answer::Failed(message) => self.fail(StoreError::Engine(message)),
            _ => self.fail(unexpected_answer()),
        }
    }

    /// The error for the file `name`, whose transaction failed.
    fn application_error(name: &str, script_len: usize, failure: Failure) -> (e: StoreError)
        ensures
            e@ == match failure.stage {
                Stage::Statement(k) => if k + 1 < script_len {
                    ErrorModel::Migration { file: name@, cause: failure.message@ }
                } else {
                    ErrorModel::Engine(failure.message@)
                },
                _ => ErrorModel::Engine(failure.message@),
            },
    {
        let Failure { stage, message } = failure;
        match stage {
            Stage::Statement(k) => {
                if k < script_len && k + 1 < script_len {
                    StoreError::Migration { file: String::from_str(name), cause: message }
                } else {
                    StoreError::Engine(message)
                }
            },
            _ => StoreError::Engine(message),
        }
    }

    /// The answer to a command on the transaction of the current file.
    fn applied(self, answer: Answer) -> (r: (MigrationRun, Option<Request>))
        requires
            self@.wf(),
            self@.phase == RunPhase::Applying,
        ensures
            r.0@ == self@.next(answer),
            r.0@.wf(),
            request_view(r.1) == r.0@.awaiting(),
    {
        let ghost before = self@;
        let MigrationRun { transaction, ..} = self;
        let rest = MigrationRun { phase: RunPhase::Checking, transaction: None, ..self };
        let (advanced, command) = transaction.unwrap().advance(to_reply(answer));
        let ghost t = advanced@;
        match command {
            Some(command) => {
                let run = MigrationRun {
                    phase: RunPhase::Applying,
                    transaction: Some(advanced),
                    ..rest
                };
                (run, Some(Request::Transact(command)))
            },
            None => {
                let script_len = advanced.script_len();
                match advanced.outcome() {
                    Some(Err(failure)) => {
                        let error = Self::application_error(
                            rest.files[rest.index].as_str(),
                            script_len,
                            failure,
                        );
                        let run = MigrationRun {
                            phase: RunPhase::Finished,
                            outcome: Some(Err(error)),
                            aborted: Ghost(Some(t)),
                            ..rest
                        };
                        (run, None)
                    },
                    _ => {
                        let ghost entry = Entry {
                            name: before.current(),
                            text: before.text,
                            found_applied: false,
                            transaction: Some(t),
                        };
                        assert(rest@.proceed(entry) == before.proceed(entry));
                        rest.proceed(false, Ghost(entry))
                    },
                }
            },
        }
    }

    /// Takes the answer to the awaited request and names the next request, or
    /// none when the run is over. An answer that arrives after the end changes
    /// nothing.
    pub fn advance(self, answer: Answer) -> (r: (MigrationRun, Option<Request>))
        requires
            self@.wf(),
        ensures
            r.0@ == self@.next(answer),
            r.0@.wf(),
            request_view(r.1) == r.0@.awaiting(),
    {
        match self.phase {
            RunPhase::Preparing => self.prepared(answer),
            RunPhase::Listing => self.listed(answer),
            RunPhase::Reading => self.read(answer),
            RunPhase::Checking => self.checked(answer),
            RunPhase::Applying => self.applied(answer),
            RunPhase::Finished => (self, None),
        }
    }
}

/// A journal of skipped files only has applied nothing.
pub proof fn lemma_fresh_none(journal: Seq<Entry>)
    requires
        forall|j: int| 0 <= j < journal.len() ==> (#[trigger] journal[j]).found_applied,
    ensures
        fresh(journal) == 0,
    decreases journal.len(),
{
    if journal.len() > 0 {
        lemma_fresh_none(journal.drop_last());
    }
}

/// The names that a sequence of durable statements records: those whose
/// recording row is among them.
pub open spec fn recorded_in(durable: Seq<StatementModel>) -> Set<Seq<char>> {
    Set::new(|name: Seq<char>| durable.contains(record_statement(name)))
}

/// The names that the first `k` files of a journal have recorded: those whose
/// recording row a transaction of one of these files has made durable.
pub open spec fn recorded_by(journal: Seq<Entry>, k: int) -> Set<Seq<char>> {
    Set::new(
        |name: Seq<char>|
            exists|j: int|
                0 <= j < k && j < journal.len() && (#[trigger] journal[j]).transaction is Some
                    && recorded_in(ledger_of(journal[j].transaction->0.history).durable).contains(
                    name,
                ),
    )
}

/// The tracking table answers truthfully in a run that starts while it holds
/// the names `held`: a lookup finds a file exactly if the table held it at the
/// start or an earlier file of the run has recorded it.
pub open spec fn truthful(m: RunModel, held: Set<Seq<char>>) -> bool {
    forall|j: int|
        0 <= j < m.journal.len() ==> (#[trigger] m.journal[j]).found_applied == (held.contains(
            m.journal[j].name,
        ) || recorded_by(m.journal, j).contains(m.journal[j].name))
}

/// A file that a run has applied is recorded: the recording row is the last
/// statement of its script, and the script is durable as a whole.
pub proof fn lemma_applied_is_recorded(m: RunModel, j: int)
    requires
        m.wf(),
        0 <= j < m.journal.len(),
        !m.journal[j].found_applied,
    ensures
        recorded_by(m.journal, j + 1).contains(m.journal[j].name),
{
    let entry = m.journal[j];
    assert(entry.wf());
    let t = entry.transaction->0;
    lemma_all_or_nothing(t);
    let durable = ledger_of(t.history).durable;
    assert(durable[durable.len() - 1] == record_statement(entry.name));
    assert(durable.contains(record_statement(entry.name)));
    assert(recorded_in(durable).contains(entry.name));
}

/// A step that ends a run in success leaves a state in which the tracking
/// table was made sure of before anything else.
pub proof fn lemma_success_follows_the_tracking_table(m: RunModel, answer: Answer)
    requires
        m.wf(),
        m.next(answer).outcome is Some,
        m.next(answer).outcome->0 is Ok,
    ensures
        m.next(answer).acknowledged.len() > 0,
        m.next(answer).acknowledged[0] == tracking_table_statement(),
{
}

/// A run that succeeds has made sure of the tracking table before anything
/// else, and has dealt with every migration file, in the order of application;
/// it reports how many of them it applied itself. Each file was either found
/// in the tracking table and left alone, or its whole script, the recording
/// row included, is durable.
pub proof fn lemma_success_covers_every_file(m: RunModel, n: nat)
    requires
        m.wf(),
        m.outcome == Some(Ok::<nat, ErrorModel>(n)),
    ensures
        m.acknowledged.len() > 0 && m.acknowledged[0] == tracking_table_statement(),
        m.files == discovered(m.listing),
        m.journal.len() == m.files.len(),
        n == fresh(m.journal),
        n <= m.files.len(),
        forall|j: int|
            0 <= j < m.files.len() ==> (#[trigger] m.journal[j]).name == m.files[j] && (
            m.journal[j].found_applied || (m.journal[j].transaction is Some && ledger_of(
                m.journal[j].transaction->0.history,
            ).durable == migration_script(m.files[j], parsed(m.journal[j].text)->Ok_0))),
{
    lemma_fresh_bound(m.journal);
    assert forall|j: int| 0 <= j < m.files.len() implies (#[trigger] m.journal[j]).name
        == m.files[j] && (m.journal[j].found_applied || (m.journal[j].transaction is Some
        && ledger_of(m.journal[j].transaction->0.history).durable == migration_script(
        m.files[j],
        parsed(m.journal[j].text)->Ok_0,
    ))) by {
        assert(m.journal[j].wf());
        if !m.journal[j].found_applied {
            lemma_all_or_nothing(m.journal[j].transaction->0);
        }
    }
}

/// A migration that fails leaves nothing behind: of the transaction on which
/// a run ended, no statement is durable, the recording row no more than the
/// others, and the transaction is closed.
pub proof fn lemma_failed_migration_leaves_nothing(m: RunModel)
    requires
        m.wf(),
        m.aborted is Some,
    ensures
        m.outcome is Some && m.outcome->0 is Err,
        ledger_of(m.aborted->0.history).durable == Seq::<StatementModel>::empty(),
        ledger_of(m.aborted->0.history).pending is None,
{
    lemma_all_or_nothing(m.aborted->0);
}

/// Running the engine twice applies each file at most once. Let a run over a
/// directory succeed on a tracking table that answers truthfully, and let a
/// later run over the same files meet a table that holds what it held before
/// together with what the first run recorded, and that answers truthfully
/// again. Then the later run applies nothing: it opens no transaction for any
/// file that it deals with, and where it succeeds it reports zero.
pub proof fn lemma_second_run_applies_nothing(
    first: RunModel,
    second: RunModel,
    held: Set<Seq<char>>,
)
    requires
        first.wf(),
        first.outcome is Some,
        first.outcome->0 is Ok,
        truthful(first, held),
        second.wf(),
        second.files == first.files,
        truthful(second, held.union(recorded_by(first.journal, first.journal.len() as int))),
    ensures
        second.applied == 0,
        forall|j: int|
            0 <= j < second.journal.len() ==> (#[trigger] second.journal[j]).found_applied
                && second.journal[j].transaction is None,
        second.outcome is Some && second.outcome->0 is Ok ==> second.outcome->0->Ok_0 == 0,
{
    let later = held.union(recorded_by(first.journal, first.journal.len() as int));
    assert forall|j: int| 0 <= j < second.journal.len() implies (#[trigger] second.journal[j]).found_applied
        && second.journal[j].transaction is None by {
        let name = second.journal[j].name;
        assert(name == second.files[j]);
        assert(first.journal[j].name == first.files[j]);
        if first.journal[j].found_applied {
            if !held.contains(name) {
                let i = choose|i: int|
                    0 <= i < j && i < first.journal.len() && (#[trigger] first.journal[i]).transaction is Some
                        && recorded_in(
                        ledger_of(first.journal[i].transaction->0.history).durable,
                    ).contains(name);
                assert(recorded_by(first.journal, first.journal.len() as int).contains(name));
            }
        } else {
            lemma_applied_is_recorded(first, j);
            let i = choose|i: int|
                0 <= i < j + 1 && i < first.journal.len() && (#[trigger] first.journal[i]).transaction is Some
                    && recorded_in(
                    ledger_of(first.journal[i].transaction->0.history).durable,
                ).contains(name);
            assert(recorded_by(first.journal, first.journal.len() as int).contains(name));
        }
        assert(later.contains(name));
        assert(second.journal[j].wf());
    }
    lemma_fresh_none(second.journal);
}

} // verus!
