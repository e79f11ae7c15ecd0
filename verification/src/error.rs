//! What can go wrong.

use vstd::prelude::*;

verus! {

#[verifier::external_type_specification]
#[verifier::external_body]
pub struct ExError(rusqlite::Error);

/// A statement that did not run, or a row that could not be read.
#[derive(Debug)]
pub enum DbError {
    /// The engine refused or failed; its own error is kept.
    Engine(rusqlite::Error),
    /// A column of a row that was read holds a value of another type than
    /// the table's schema gives it. Columns count from zero.
    ColumnType { column: usize },
}

/// The step of a load that failed, with the cause.
#[derive(Debug)]
pub enum LoadError {
    /// Dropping the old table failed.
    DropTable(DbError),
    /// Creating the table failed.
    CreateTable(DbError),
    /// The insert statement could not be prepared.
    Prepare(DbError),
    /// The insert of one row failed. Rows count from zero; the rows before
    /// it were inserted, the rows after it were not tried.
    Insert { row: usize, cause: DbError },
}

/// `Display` of `rusqlite::Error`: the engine's message for the error. The
/// text is the outside crate's wording; nothing is claimed of it.
#[verifier::external_body]
fn engine_message(e: &rusqlite::Error) -> (out: String) {
    e.to_string()
}

/// What is said of a column that holds a value of another type than the
/// schema gives it.
pub const COLUMN_TYPE_MESSAGE: &'static str = "a column holds a value of another type";

impl DbError {
    /// A line of text for a log: for a column of another type the words of
    /// [`COLUMN_TYPE_MESSAGE`], for an error of the engine the engine's own
    /// wording.
    pub fn message(&self) -> (out: String)
        ensures
            *self is ColumnType ==> out@ == COLUMN_TYPE_MESSAGE@,
    {
        match self {
            DbError::Engine(e) => engine_message(e),
            DbError::ColumnType { .. } => COLUMN_TYPE_MESSAGE.to_owned(),
        }
    }
}

impl LoadError {
    /// The error that made the step fail.
    pub open spec fn failure(self) -> DbError {
        match self {
            LoadError::DropTable(c) => c,
            LoadError::CreateTable(c) => c,
            LoadError::Prepare(c) => c,
            LoadError::Insert { cause, .. } => cause,
        }
    }

    /// The error that made the step fail.
    pub fn cause(&self) -> (out: &DbError)
        ensures
            *out == self.failure(),
    {
        match self {
            LoadError::DropTable(c) => c,
            LoadError::CreateTable(c) => c,
            LoadError::Prepare(c) => c,
            LoadError::Insert { cause, .. } => cause,
        }
    }

    /// A line of text for a log: the message of the error that made the
    /// step fail.
    pub fn message(&self) -> (out: String)
        ensures
            self.failure() is ColumnType ==> out@ == COLUMN_TYPE_MESSAGE@,
    {
        self.cause().message()
    }
}

} // verus!
