//! The lifecycle commands: probing, initializing and resetting the registry.

use vstd::prelude::*;
use crate::database::{file_name_of, plan_for, ConnectPlan, Database, PlanModel};
use crate::domain::AppState;
use crate::error::{ErrorModel, StoreError};
use crate::migration::{tracking_table, tracking_table_statement};
use crate::run::{
    lemma_success_follows_the_tracking_table, unexpected, unexpected_answer, Answer,
    MigrationRun, Request, RequestModel, RunModel, RunPhase,
};
use crate::transaction::{Statement, StatementModel};

verus! {

/// The registry with `db` installed.
pub open spec fn after_install<P>(state: AppState<P>, db: Database<P>) -> AppState<P> {
    AppState { db: Some(db), ..state }
}

/// The registry with its slot emptied.
pub open spec fn after_reset<P>(state: AppState<P>) -> AppState<P> {
    AppState { db: None, ..state }
}

/// Whether the registry refuses to be initialized: a database is installed.
pub open spec fn refuses_init<P>(state: AppState<P>) -> bool {
    state.db is Some
}

/// Whether the registry is ready, given what the probe counted: a database is
/// installed, and its schema holds exactly one tracking table.
pub open spec fn ready<P>(state: AppState<P>, probe: Option<i32>) -> bool {
    state.db is Some && probe == Some(1i32)
}

/// A registry without a database is not ready, whatever a probe would count.
pub proof fn lemma_empty_registry_is_not_ready<P>(state: AppState<P>, probe: Option<i32>)
    requires
        state.db is None,
    ensures
        !ready(state, probe),
{
}

/// Once a database is installed, the registry is ready exactly if the probe
/// finds the tracking table, and a further initialization is refused; the
/// installed database stays where it is.
pub proof fn lemma_installed_registry<P>(state: AppState<P>, db: Database<P>, probe: Option<i32>)
    ensures
        ready(after_install(state, db), probe) == (probe == Some(1i32)),
        refuses_init(after_install(state, db)),
        after_install(state, db).db == Some(db),
{
}

/// After a reset the registry is not ready and can be initialized again, as
/// if nothing had been installed before.
pub proof fn lemma_reset_starts_afresh<P>(state: AppState<P>, probe: Option<i32>)
    ensures
        !ready(after_reset(state), probe),
        !refuses_init(after_reset(state)),
        after_reset(after_reset(state)) == after_reset(state),
{
}

/// The statement to probe the installed database with, or none where the slot
/// is empty.
pub fn readiness_probe<P>(app_state: &AppState<P>) -> (probe: Option<Statement>)
    ensures
        app_state.db is None ==> probe is None,
        app_state.db is Some ==> probe is Some && probe->0@
            == crate::database::readiness_statement(),
{
    match &app_state.db {
        Some(_) => Some(Database::<P>::readiness_probe()),
        None => None,
    }
}

/// Whether a database is installed and ready, given what the probe counted:
/// false where the slot is empty, and else what the database says.
pub fn is_db_ready<P>(app_state: &AppState<P>, probe: Option<i32>) -> (ready: bool)
    ensures
        ready == self::ready(*app_state, probe),
{
    match &app_state.db {
        Some(db) => db.is_ready(probe),
        None => false,
    }
}

/// What the caller is asked to do while a database is initialized.
#[derive(Clone, Debug, PartialEq, Eq)]
pub enum InitRequest {
    /// Open a connection pool as the plan says.
    Connect(ConnectPlan),
    /// Run the statement on the new pool.
    Prepare(Statement),
    /// Perform the request of the migration run on the new pool.
    Migrate(Request),
}

/// The mathematical content of an [`InitRequest`].
pub enum InitRequestModel {
    Connect(PlanModel),
    Prepare(StatementModel),
    Migrate(RequestModel),
}

impl View for InitRequest {
    type V = InitRequestModel;

    open spec fn view(&self) -> InitRequestModel {
        match self {
            InitRequest::Connect(plan) => InitRequestModel::Connect(plan@),
            InitRequest::Prepare(statement) => InitRequestModel::Prepare(statement@),
            InitRequest::Migrate(request) => InitRequestModel::Migrate(request@),
        }
    }
}

/// How a request of the initialization went.
pub enum InitAnswer<P> {
    /// The pool is open; its handle.
    Connected(P),
    /// The pool could not be opened, with this message.
    Refused(String),
    /// The answer of the engine or the file system.
    Engine(Answer),
}

/// What an initialization waits for.
#[derive(Clone, Copy, Debug, PartialEq, Eq)]
pub enum InitPhase {
    /// The pool is being opened.
    Connecting,
    /// The tracking table is being created on the new pool.
    Preparing,
    /// The migrations are running.
    Migrating,
}

/// An initialization in progress. The database that it builds is handed out
/// only when the migrations have run to completion.
pub struct Initialization<P> {
    phase: InitPhase,
    db_dir: String,
    migration_dir: String,
    database: Option<Database<P>>,
    run: Option<MigrationRun>,
}

/// The mathematical content of an [`Initialization`].
pub struct InitModel<P> {
    pub phase: InitPhase,
    pub db_dir: Seq<char>,
    pub migration_dir: Seq<char>,
    /// The handle of the new pool, once it is open.
    pub pool: Option<P>,
    /// The migration run, once it has started.
    pub run: Option<RunModel>,
}

/// What a step of the initialization gives: the next request, or the end.
pub enum InitStep<P> {
    Continue(Initialization<P>, InitRequest),
    Done(Result<Database<P>, StoreError>),
}

/// The mathematical content of an [`InitStep`]: for a database, the handle of
/// its pool.
pub enum InitStepModel<P> {
    Continue(InitModel<P>, InitRequestModel),
    Done(Result<P, ErrorModel>),
}

impl<P> InitModel<P> {
    /// The request whose answer the initialization waits for.
    pub open spec fn awaiting(self, password: Seq<char>) -> InitRequestModel {
        match self.phase {
            InitPhase::Connecting => InitRequestModel::Connect(
                plan_for(password, self.db_dir, None),
            ),
            InitPhase::Preparing => InitRequestModel::Prepare(tracking_table_statement()),
            InitPhase::Migrating => InitRequestModel::Migrate(self.run->0.awaiting()->0),
        }
    }

    /// The step that an answer leads to. A pool that cannot be opened or
    /// prepared is a connection error. The migrations then run to their end:
    /// if they succeed the database is handed out, and if they fail it is not.
    pub open spec fn next(self, answer: InitAnswer<P>) -> InitStepModel<P> {
        match self.phase {
            InitPhase::Connecting => match answer {
                InitAnswer::Connected(pool) => InitStepModel::Continue(
                    InitModel { phase: InitPhase::Preparing, pool: Some(pool), ..self },
                    InitRequestModel::Prepare(tracking_table_statement()),
                ),
                InitAnswer::Refused(message) => InitStepModel::Done(
                    Err(ErrorModel::Connection(message@)),
                ),
                _ => InitStepModel::Done(Err(ErrorModel::Engine(unexpected()))),
            },
            InitPhase::Preparing => match answer {
                InitAnswer::Engine(Answer::Rows(_)) => InitStepModel::Continue(
                    InitModel {
                        phase: InitPhase::Migrating,
                        run: Some(RunModel::initial(self.migration_dir)),
                        ..self
                    },
                    InitRequestModel::Migrate(
                        RunModel::initial(self.migration_dir).awaiting()->0,
                    ),
                ),
                InitAnswer::Engine(Answer::Failed(message)) => InitStepModel::Done(
                    Err(ErrorModel::Connection(message@)),
                ),
                _ => InitStepModel::Done(Err(ErrorModel::Engine(unexpected()))),
            },
            InitPhase::Migrating => match answer {
                InitAnswer::Engine(answer) => {
                    let run = self.run->0.next(answer);
                    match run.outcome {
                        None => InitStepModel::Continue(
                            InitModel { run: Some(run), ..self },
                            InitRequestModel::Migrate(run.awaiting()->0),
                        ),
                        Some(Ok(_)) => InitStepModel::Done(Ok(self.pool->0)),
                        Some(Err(e)) => InitStepModel::Done(Err(e)),
                    }
                },
                _ => InitStepModel::Done(Err(ErrorModel::Engine(unexpected()))),
            },
        }
    }

    /// What holds of every initialization in progress.
    pub open spec fn wf(self) -> bool {
        match self.phase {
            InitPhase::Connecting => self.pool is None && self.run is None,
            InitPhase::Preparing => self.pool is Some && self.run is None,
            InitPhase::Migrating => {
                &&& self.pool is Some
                &&& self.run is Some
                &&& self.run->0.wf()
                &&& self.run->0.phase != RunPhase::Finished
            },
        }
    }
}

/// The view of the result of an initialization.
pub open spec fn done_view<P>(r: Result<Database<P>, StoreError>) -> Result<P, ErrorModel> {
    match r {
        Ok(db) => Ok(db.pool()),
        Err(e) => Err(e@),
    }
}

impl<P> View for Initialization<P> {
    type V = InitModel<P>;

    closed spec fn view(&self) -> InitModel<P> {
        InitModel {
            phase: self.phase,
            db_dir: self.db_dir@,
            migration_dir: self.migration_dir@,
            pool: match self.database {
                Some(db) => Some(db.pool()),
                None => None,
            },
            run: match self.run {
                Some(run) => Some(run@),
                None => None,
            },
        }
    }
}

impl<P> View for InitStep<P> {
    type V = InitStepModel<P>;

    open spec fn view(&self) -> InitStepModel<P> {
        match self {
            InitStep::Continue(init, request) => InitStepModel::Continue(init@, request@),
            InitStep::Done(r) => InitStepModel::Done(done_view(*r)),
        }
    }
}

/// A database is handed out only at the end of a migration run that
/// succeeded, on the pool that was opened for it, and after the tracking table
/// was made sure of on that pool.
pub proof fn lemma_database_only_after_migration<P>(m: InitModel<P>, answer: InitAnswer<P>)
    requires
        m.wf(),
        m.next(answer) is Done,
        m.next(answer)->Done_0 is Ok,
    ensures
        m.phase == InitPhase::Migrating,
        answer is Engine,
        m.pool == Some(m.next(answer)->Done_0->Ok_0),
        m.run->0.next(answer->Engine_0).outcome is Some,
        m.run->0.next(answer->Engine_0).outcome->0 is Ok,
        m.run->0.next(answer->Engine_0).acknowledged.len() > 0,
        m.run->0.next(answer->Engine_0).acknowledged[0] == tracking_table_statement(),
{
    lemma_success_follows_the_tracking_table(m.run->0, answer->Engine_0);
}

/// Begins to initialize the registry with the passphrase: refused if a
/// database is installed already, and else the machine that builds one, with
/// its first request.
pub fn init_db<P>(app_state: &AppState<P>, encryption_key: &str) -> (r: Result<
    (Initialization<P>, InitRequest),
    StoreError,
>)
    ensures
        r is Err <==> refuses_init(*app_state),
        r is Err ==> r->Err_0@ == ErrorModel::AlreadyInitialized,
        r is Ok ==> {
            &&& r->Ok_0.0@ == (InitModel::<P> {
                phase: InitPhase::Connecting,
                db_dir: app_state.db_dir@,
                migration_dir: app_state.migration_dir@,
                pool: None,
                run: None,
            })
            &&& r->Ok_0.0.inv()
            &&& r->Ok_0.1@ == r->Ok_0.0@.awaiting(encryption_key@)
        },
{
    match &app_state.db {
        Some(_) => Err(StoreError::AlreadyInitialized),
        None => {
            let plan = Database::<P>::plan(encryption_key, app_state.db_dir.as_str(), None);
            let init = Initialization {
                phase: InitPhase::Connecting,
                db_dir: app_state.db_dir.clone(),
                migration_dir: app_state.migration_dir.clone(),
                database: None,
                run: None,
            };
            Ok((init, InitRequest::Connect(plan)))
        },
    }
}

impl<P> Initialization<P> {
    /// What holds of every initialization in progress: its state is well
    /// formed, and the database that it holds is the one for the data
    /// directory, under the default name.
    pub closed spec fn inv(&self) -> bool {
        &&& self@.wf()
        &&& match self.database {
            Some(db) => db.directory() == self.db_dir@ && db.name() == file_name_of(None),
            None => true,
        }
    }

    /// The handle of the new pool, on which the caller performs what is asked
    /// once the pool is open.
    pub fn pool(&self) -> (pool: Option<&P>)
        ensures
            match pool {
                Some(p) => self@.pool == Some(*p),
                None => self@.pool is None,
            },
    {
        match &self.database {
            Some(db) => Some(db.get_pool()),
            None => None,
        }
    }

    /// Takes the answer to the awaited request and gives the next request or
    /// the end. The database is handed out if and only if the migrations ran
    /// to completion; it is the one for the data directory, under the default
    /// name.
    pub fn advance(self, answer: InitAnswer<P>) -> (step: InitStep<P>)
        requires
            self.inv(),
        ensures
            step@ == self@.next(answer),
            step matches InitStep::Continue(init, _) ==> init.inv(),
            step matches InitStep::Done(Ok(db)) ==> db.directory() == self@.db_dir && db.name()
                == file_name_of(None),
    {
        let Initialization { phase, db_dir, migration_dir, database, run } = self;
        match phase {
            InitPhase::Connecting => match answer {
                InitAnswer::Connected(pool) => {
                    let db = Database::new(pool, db_dir.clone(), None);
                    let init = Initialization {
                        phase: InitPhase::Preparing,
                        db_dir,
                        migration_dir,
                        database: Some(db),
                        run,
                    };
                    InitStep::Continue(init, InitRequest::Prepare(tracking_table()))
                },
                InitAnswer::Refused(message) => InitStep::Done(
                    Err(StoreError::Connection(message)),
                ),
                _ => InitStep::Done(Err(unexpected_answer())),
            },
            InitPhase::Preparing => match answer {
                InitAnswer::Engine(Answer::Rows(_)) => {
                    let (started, request) = MigrationRun::start(migration_dir.clone());
                    let init = Initialization {
                        phase: InitPhase::Migrating,
                        db_dir,
                        migration_dir,
                        database,
                        run: Some(started),
                    };
                    InitStep::Continue(init, InitRequest::Migrate(request))
                },
                InitAnswer::Engine(Answer::Failed(message)) => InitStep::Done(
                    Err(StoreError::Connection(message)),
                ),
                _ => InitStep::Done(Err(unexpected_answer())),
            },
            InitPhase::Migrating => match answer {
                InitAnswer::Engine(answer) => {
                    let (advanced, request) = run.unwrap().advance(answer);
                    match request {
                        Some(request) => {
                            let init = Initialization {
                                phase,
                                db_dir,
                                migration_dir,
                                database,
                                run: Some(advanced),
                            };
                            InitStep::Continue(init, InitRequest::Migrate(request))
                        },
                        None => match advanced.outcome() {
                            Some(Err(e)) => InitStep::Done(Err(e)),
                            _ => InitStep::Done(Ok(database.unwrap())),
                        },
                    }
                },
                _ => InitStep::Done(Err(unexpected_answer())),
            },
        }
    }
}

/// Installs a database in the slot and hands back the one that it replaces, if
/// any, for the caller to close.
pub fn install<P>(app_state: &mut AppState<P>, db: Database<P>) -> (replaced: Option<Database<P>>)
    ensures
        *final(app_state) == after_install(*old(app_state), db),
        replaced == old(app_state).db,
{
    let replaced = app_state.db.take();
    app_state.db = Some(db);
    replaced
}

/// What a reset leaves for the caller to do, in this order.
pub struct ResetPlan<P> {
    /// The pool to close, where a database was installed.
    pub close: Option<P>,
    /// The directory whose store files to delete, where a purge was asked for.
    pub purge: Option<String>,
}

/// The directory that a reset purges: that of the installed database, or the
/// data directory where none is installed.
pub open spec fn purge_directory<P>(app_state: AppState<P>) -> Seq<char> {
    match app_state.db {
        Some(db) => db.directory(),
        None => app_state.db_dir@,
    }
}

/// Resets the registry. The slot is empty from here on, whatever becomes of
/// the clean-up: the pool of the database that was installed is to be closed,
/// and with `purge_data` the files of the store are to be deleted.
pub fn reset_db<P>(app_state: &mut AppState<P>, purge_data: bool) -> (plan: ResetPlan<P>)
    ensures
        *final(app_state) == after_reset(*old(app_state)),
        plan.close == match old(app_state).db {
            Some(db) => Some(db.pool()),
            None => None,
        },
        purge_data ==> plan.purge is Some && plan.purge->0@ == purge_directory(*old(app_state)),
        !purge_data ==> plan.purge is None,
{
    match app_state.db.take() {
        Some(db) => {
            let (pool, directory) = db.reset();
            ResetPlan {
                close: Some(pool),
                purge: if purge_data {
                    Some(directory)
                } else {
                    None
                },
            }
        },
        None => ResetPlan {
            close: None,
            purge: if purge_data {
                Some(app_state.db_dir.clone())
            } else {
                None
            },
        },
    }
}

} // verus!
