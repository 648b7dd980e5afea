//! One open encrypted store: how it is opened, probed and purged.

use vstd::prelude::*;
use crate::discovery::texts;
use crate::error::{concat2, concat3, ErrorModel, StoreError};
use crate::migration::MIGRATION_TABLE_NAME;
use crate::text::{is_prefix, starts_with};
use crate::transaction::{Statement, StatementModel};
use crate::value::BindingModel;

verus! {

/// The file name of the store where none is given. The write-ahead log and
/// the shared-memory file beside it have names that begin with it.
pub const DEFAULT_DB_NAME: &'static str = "app.db";

/// One setting applied to every connection, in the form `PRAGMA name = value`.
#[derive(Clone, Debug, PartialEq, Eq)]
pub struct Pragma {
    pub name: String,
    pub value: String,
}

/// How the store is to be opened.
#[derive(Clone, Debug, PartialEq, Eq)]
pub struct ConnectPlan {
    /// The directory of the store.
    pub directory: String,
    /// The name of the store's file in that directory.
    pub file_name: String,
    /// The settings, in the order in which they apply.
    pub pragmas: Vec<Pragma>,
    /// Whether the file is created where it does not exist.
    pub create_if_missing: bool,
}

/// The mathematical content of a [`ConnectPlan`]: each setting as a pair of
/// name and value.
pub struct PlanModel {
    pub directory: Seq<char>,
    pub file_name: Seq<char>,
    pub pragmas: Seq<(Seq<char>, Seq<char>)>,
    pub create_if_missing: bool,
}

impl View for ConnectPlan {
    type V = PlanModel;

    open spec fn view(&self) -> PlanModel {
        PlanModel {
            directory: self.directory@,
            file_name: self.file_name@,
            pragmas: Seq::new(
                self.pragmas@.len(),
                |i: int| (self.pragmas@[i].name@, self.pragmas@[i].value@),
            ),
            create_if_missing: self.create_if_missing,
        }
    }
}

/// The name of the store's file: the one given, or the default.
pub open spec fn file_name_of(db_name: Option<&str>) -> Seq<char> {
    match db_name {
        Some(name) => name@,
        None => DEFAULT_DB_NAME@,
    }
}

/// The plan for a store in `directory`: the file is created if absent; the
/// key derived from the password comes first, then write-ahead logging,
/// relaxed durability, and a wait of five seconds for a lock.
pub open spec fn plan_for(password: Seq<char>, directory: Seq<char>, db_name: Option<&str>)
    -> PlanModel {
    PlanModel {
        directory,
        file_name: file_name_of(db_name),
        pragmas: seq![
            ("key"@, password),
            ("journal_mode"@, "WAL"@),
            ("synchronous"@, "NORMAL"@),
            ("busy_timeout"@, "5000"@),
        ],
        create_if_missing: true,
    }
}

/// The statement that counts the tables named like the tracking table.
pub open spec fn readiness_statement() -> StatementModel {
    StatementModel {
        sql: "SELECT count(*) FROM sqlite_master WHERE type='table' AND name='"@
            + MIGRATION_TABLE_NAME@ + "';"@,
        bindings: Seq::empty(),
    }
}

/// A name is that of a file of the store if it begins with the default name.
pub open spec fn is_store_file(name: Seq<char>) -> bool {
    is_prefix(DEFAULT_DB_NAME@, name)
}

/// The test for files of the store, as a predicate.
pub open spec fn store_files() -> spec_fn(Seq<char>) -> bool {
    |name: Seq<char>| is_store_file(name)
}

fn pragma(name: &str, value: &str) -> (p: Pragma)
    ensures
        p.name@ == name@,
        p.value@ == value@,
{
    Pragma { name: String::from_str(name), value: String::from_str(value) }
}

/// One open store: the handle of its connection pool, its file name, and the
/// directory it lives in.
pub struct Database<P> {
    db_dir: String,
    db_name: String,
    pool: P,
}

impl<P> Database<P> {
    /// The handle of the connection pool.
    pub closed spec fn pool(&self) -> P {
        self.pool
    }

    /// The file name of the store.
    pub closed spec fn name(&self) -> Seq<char> {
        self.db_name@
    }

    /// The directory of the store.
    pub closed spec fn directory(&self) -> Seq<char> {
        self.db_dir@
    }

    /// How a store in `db_dir` is opened with `password`.
    pub fn plan(password: &str, db_dir: &str, db_name: Option<&str>) -> (plan: ConnectPlan)
        ensures
            plan@ == plan_for(password@, db_dir@, db_name),
    {
        let file_name = match db_name {
            Some(name) => String::from_str(name),
            None => String::from_str(DEFAULT_DB_NAME),
        };
        let mut pragmas: Vec<Pragma> = Vec::new();
        pragmas.push(pragma("key", password));
        pragmas.push(pragma("journal_mode", "WAL"));
        pragmas.push(pragma("synchronous", "NORMAL"));
        pragmas.push(pragma("busy_timeout", "5000"));
        let plan = ConnectPlan {
            directory: String::from_str(db_dir),
            file_name,
            pragmas,
            create_if_missing: true,
        };
        assert(plan@.pragmas =~= plan_for(password@, db_dir@, db_name).pragmas);
        plan
    }

    /// The store behind the pool that was opened by the plan for `db_dir` and
    /// `db_name`.
    pub fn new(pool: P, db_dir: String, db_name: Option<&str>) -> (db: Self)
        ensures
            db.pool() == pool,
            db.directory() == db_dir@,
            db.name() == file_name_of(db_name),
    {
        let db_name = match db_name {
            Some(name) => String::from_str(name),
            None => String::from_str(DEFAULT_DB_NAME),
        };
        Database { db_dir, db_name, pool }
    }

    /// The handle of the connection pool.
    pub fn get_pool(&self) -> (pool: &P)
        ensures
            *pool == self.pool(),
    {
        &self.pool
    }

    /// The file name of the store.
    pub fn get_db_name(&self) -> (name: String)
        ensures
            name@ == self.name(),
    {
        self.db_name.clone()
    }

    /// The directory of the store.
    pub fn get_db_dir(&self) -> (dir: String)
        ensures
            dir@ == self.directory(),
    {
        self.db_dir.clone()
    }

    /// The handle of the connection pool, for closing it: the store is given up.
    pub fn close_pool(self) -> (pool: P)
        ensures
            pool == self.pool(),
    {
        self.pool
    }

    /// The statement of the readiness probe.
    pub fn readiness_probe() -> (s: Statement)
        ensures
            s@ == readiness_statement(),
    {
        let s = Statement {
            sql: concat3(
                "SELECT count(*) FROM sqlite_master WHERE type='table' AND name='",
                MIGRATION_TABLE_NAME,
                "';",
            ),
            bindings: Vec::new(),
        };
        assert(s@.bindings =~= Seq::<BindingModel>::empty());
        s
    }

    /// Whether the store is ready, given what the probe counted, or `None`
    /// where the probe failed: ready if and only if the schema holds exactly one
    /// table named like the tracking table.
    pub fn is_ready(&self, probe: Option<i32>) -> (ready: bool)
        ensures
            ready == (probe == Some(1i32)),
    {
        match probe {
            Some(count) => count == 1,
            None => false,
        }
    }

    /// What a reset does to this store: its pool is closed, then the files of
    /// its directory are purged.
    pub fn reset(self) -> (r: (P, String))
        ensures
            r.0 == self.pool(),
            r.1@ == self.directory(),
    {
        let Database { db_dir, db_name, pool } = self;
        (pool, db_dir)
    }

    /// The entries of the data directory that a purge deletes, in the order of
    /// the listing: the store's file and whatever else begins with its default
    /// name.
    pub fn purge_data(listing: &Vec<String>) -> (doomed: Vec<String>)
        ensures
            texts(doomed@) == texts(listing@).filter(store_files()),
    {
        let mut doomed: Vec<String> = Vec::new();
        let mut i: usize = 0;
        proof {
            reveal(Seq::filter);
            assert(texts(listing@).take(0) =~= Seq::<Seq<char>>::empty());
            assert(texts(doomed@) =~= Seq::<Seq<char>>::empty());
        }
        while i < listing.len()
            invariant
                i <= listing.len(),
                texts(doomed@) == texts(listing@).take(i as int).filter(store_files()),
            decreases listing.len() - i,
        {
            let ghost before = texts(doomed@);
            let ghost seen = texts(listing@).take(i as int);
            proof {
                reveal(Seq::filter);
                assert(texts(listing@).take(i + 1) =~= seen.push(listing[i as int]@));
                assert(seen.push(listing[i as int]@).drop_last() =~= seen);
            }
            if starts_with(listing[i].as_str(), DEFAULT_DB_NAME) {
                doomed.push(listing[i].clone());
                assert(texts(doomed@) =~= before.push(listing[i as int]@));
            }
            i = i + 1;
        }
        assert(texts(listing@).take(listing.len() as int) =~= texts(listing@));
        doomed
    }
}

/// The error for a data directory that cannot be listed.
pub fn listing_failed(cause: &str) -> (e: StoreError)
    ensures
        e@ == ErrorModel::Io("Failed to read db directory: "@ + cause@),
{
    StoreError::Io(concat2("Failed to read db directory: ", cause))
}

/// The error for a file of the store that cannot be deleted.
pub fn delete_failed(name: &str, cause: &str) -> (e: StoreError)
    ensures
        e@ == ErrorModel::Io("Failed to delete "@ + name@ + ": "@ + cause@),
{
    let mut text = concat3("Failed to delete ", name, ": ");
    text.append(cause);
    StoreError::Io(text)
}

} // verus!
