//! The failures that the store reports, and the message of each.

use vstd::prelude::*;

verus! {

/// Why an operation of the store failed.
#[derive(Clone, Debug, PartialEq, Eq)]
pub enum StoreError {
    /// A database is installed already.
    AlreadyInitialized,
    /// No database is installed.
    NotInitialized,
    /// Transaction control was attempted outside a batch.
    InvalidOperation,
    /// The database could not be opened; the engine's message.
    Connection(String),
    /// The migrations directory, named here, does not exist.
    NotFound(String),
    /// A migration's text is not a sequence of statements; the parser's message.
    Parse(String),
    /// A statement of the named migration failed.
    Migration { file: String, cause: String },
    /// A directory could not be listed, or a file not read or deleted.
    Io(String),
    /// Any other failure of the engine.
    Engine(String),
}

/// The mathematical content of a [`StoreError`].
pub enum ErrorModel {
    AlreadyInitialized,
    NotInitialized,
    InvalidOperation,
    Connection(Seq<char>),
    NotFound(Seq<char>),
    Parse(Seq<char>),
    Migration { file: Seq<char>, cause: Seq<char> },
    Io(Seq<char>),
    Engine(Seq<char>),
}

impl View for StoreError {
    type V = ErrorModel;

    open spec fn view(&self) -> ErrorModel {
        match self {
            StoreError::AlreadyInitialized => ErrorModel::AlreadyInitialized,
            StoreError::NotInitialized => ErrorModel::NotInitialized,
            StoreError::InvalidOperation => ErrorModel::InvalidOperation,
            StoreError::Connection(m) => ErrorModel::Connection(m@),
            StoreError::NotFound(dir) => ErrorModel::NotFound(dir@),
            StoreError::Parse(m) => ErrorModel::Parse(m@),
            StoreError::Migration { file, cause } => ErrorModel::Migration {
                file: file@,
                cause: cause@,
            },
            StoreError::Io(m) => ErrorModel::Io(m@),
            StoreError::Engine(m) => ErrorModel::Engine(m@),
        }
    }
}

/// The message of an error, as a person reads it.
pub open spec fn message_of(e: ErrorModel) -> Seq<char> {
    match e {
        ErrorModel::AlreadyInitialized => "Database is already initialized."@,
        ErrorModel::NotInitialized => "Database not initialized"@,
        ErrorModel::InvalidOperation =>
            "BEGIN/COMMIT/ROLLBACK not allowed in single SQL execution. Use batch execution instead."@,
        ErrorModel::Connection(m) => m,
        ErrorModel::NotFound(dir) => "Migration folder not found: "@ + dir,
        ErrorModel::Parse(m) => m,
        ErrorModel::Migration { file, cause } => file + ": "@ + cause,
        ErrorModel::Io(m) => m,
        ErrorModel::Engine(m) => m,
    }
}

/// The text `a` followed by `b`.
pub fn concat2(a: &str, b: &str) -> (r: String)
    ensures
        r@ == a@ + b@,
{
    let mut r = String::from_str(a);
    r.append(b);
    r
}

/// The texts `a`, `b` and `c` in a row.
pub fn concat3(a: &str, b: &str, c: &str) -> (r: String)
    ensures
        r@ == a@ + b@ + c@,
{
    let mut r = String::from_str(a);
    r.append(b);
    r.append(c);
    r
}

impl StoreError {
    /// The message of this error.
    pub fn message(&self) -> (m: String)
        ensures
            m@ == message_of(self@),
    {
        match self {
            StoreError::AlreadyInitialized => String::from_str("Database is already initialized."),
            StoreError::NotInitialized => String::from_str("Database not initialized"),
            StoreError::InvalidOperation => String::from_str(
                "BEGIN/COMMIT/ROLLBACK not allowed in single SQL execution. Use batch execution instead.",
            ),
            StoreError::Connection(m) => m.clone(),
            StoreError::NotFound(dir) => concat2("Migration folder not found: ", dir.as_str()),
            StoreError::Parse(m) => m.clone(),
            StoreError::Migration { file, cause } => concat3(file.as_str(), ": ", cause.as_str()),
            StoreError::Io(m) => m.clone(),
            StoreError::Engine(m) => m.clone(),
        }
    }
}

} // verus!
