//! The state that the commands share.

use vstd::prelude::*;
use crate::database::Database;

verus! {

/// The registry of the process: the slot for the one installed database, the
/// data directory and the migrations directory. The caller guards it with a
/// reader-writer lock: the commands that take it by `&` may run side by side,
/// those that take it by `&mut` run alone.
pub struct AppState<P> {
    pub db: Option<Database<P>>,
    pub db_dir: String,
    pub migration_dir: String,
}

impl<P> AppState<P> {
    /// A registry with an empty slot.
    pub fn new(db_dir: String, migration_dir: String) -> (state: Self)
        ensures
            state.db is None,
            state.db_dir@ == db_dir@,
            state.migration_dir@ == migration_dir@,
    {
        AppState { db: None, db_dir, migration_dir }
    }
}

} // verus!
