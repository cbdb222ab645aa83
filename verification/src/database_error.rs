use vstd::prelude::*;
use crate::text::prefixed;
use vstd::string::StringExecFns;
use vstd::std_specs::convert::FromSpecImpl;
use crate::text_search::{contains, contains_text};

verus! {

/// A database error of any store implementation, with the text of its cause.
#[derive(Clone, Debug, PartialEq, Eq)]
pub enum DatabaseError {
    NotFound(String),
    Connection(String),
    Database(String),
    UniqueViolation(String),
    ForeignKeyViolation(String),
    OtherConstraintViolation(String),
    TransactionSerialization(String),
    Encode(String),
    Decode(String),
    Migration(String),
    Timeout(String),
    DatabaseMismatch(String),
}

/// How a database error is shown.
pub open spec fn database_error_text(error: DatabaseError) -> Seq<char> {
    match error {
        DatabaseError::NotFound(_) => "Entity not found"@,
        DatabaseError::Connection(cause) => "Connection error: "@ + cause@,
        DatabaseError::Database(cause) => "Database error: "@ + cause@,
        DatabaseError::UniqueViolation(cause) => "Unique constraint violation: "@ + cause@,
        DatabaseError::ForeignKeyViolation(cause) => "Foreign key violation: "@ + cause@,
        DatabaseError::OtherConstraintViolation(cause) => "Other constraint violation: "@ + cause@,
        DatabaseError::TransactionSerialization(cause) => "Transaction serialization error: "@ + cause@,
        DatabaseError::Encode(cause) => "Encoding values: "@ + cause@,
        DatabaseError::Decode(cause) => "Decoding values: "@ + cause@,
        DatabaseError::Migration(cause) => "Migration error: "@ + cause@,
        DatabaseError::Timeout(cause) => "Timeout: "@ + cause@,
        DatabaseError::DatabaseMismatch(cause) => "Repository and connection are for different databases: "@ + cause@,
    }
}

impl DatabaseError {
    /// The text by which the error is shown.
    pub fn to_display_string(&self) -> (text: String)
        ensures
            text@ == database_error_text(*self),
    {
        match self {
            DatabaseError::NotFound(_) => String::from_str("Entity not found"),
            DatabaseError::Connection(cause) => prefixed("Connection error: ", cause),
            DatabaseError::Database(cause) => prefixed("Database error: ", cause),
            DatabaseError::UniqueViolation(cause) => prefixed("Unique constraint violation: ", cause),
            DatabaseError::ForeignKeyViolation(cause) => prefixed("Foreign key violation: ", cause),
            DatabaseError::OtherConstraintViolation(cause) => prefixed("Other constraint violation: ", cause),
            DatabaseError::TransactionSerialization(cause) => prefixed("Transaction serialization error: ", cause),
            DatabaseError::Encode(cause) => prefixed("Encoding values: ", cause),
            DatabaseError::Decode(cause) => prefixed("Decoding values: ", cause),
            DatabaseError::Migration(cause) => prefixed("Migration error: ", cause),
            DatabaseError::Timeout(cause) => prefixed("Timeout: ", cause),
            DatabaseError::DatabaseMismatch(cause) =>
                prefixed("Repository and connection are for different databases: ", cause),
        }
    }
}

/// The kind of database error a constraint violation reported by SQLite falls under,
/// judged by its message.
pub open spec fn constraint_violation_kind(message: Seq<char>, cause: String) -> DatabaseError {
    if contains_text(message, "UNIQUE constraint failed"@) || contains_text(message, "PRIMARY KEY constraint failed"@) {
        DatabaseError::UniqueViolation(cause)
    } else if contains_text(message, "FOREIGN KEY constraint failed"@) {
        DatabaseError::ForeignKeyViolation(cause)
    } else {
        DatabaseError::OtherConstraintViolation(cause)
    }
}

/// Classifies a constraint violation by its message: unique and primary key
/// violations, foreign key violations, and the others.
pub fn classify_constraint_violation(message: &str, cause: String) -> (error: DatabaseError)
    ensures
        error == constraint_violation_kind(message@, cause),
{
    if contains(message, "UNIQUE constraint failed") || contains(message, "PRIMARY KEY constraint failed") {
        DatabaseError::UniqueViolation(cause)
    } else if contains(message, "FOREIGN KEY constraint failed") {
        DatabaseError::ForeignKeyViolation(cause)
    } else {
        DatabaseError::OtherConstraintViolation(cause)
    }
}

/// A failure of the libsql driver, told apart as the store needs it, each with the
/// text by which the driver shows it.
#[derive(Clone, Debug, PartialEq, Eq)]
pub enum LibSqlError {
    ToSqlConversionFailure(String),
    QueryReturnedNoRows(String),
    InvalidColumnIndex(String),
    InvalidColumnType(String),
    ConnectionFailed(String),
    InvalidUtf8Path(String),
    InvalidParserState(String),
    InvalidTlsConfiguration(String),
    /// An error code of SQLite with its message.
    SqliteFailure { code: i32, message: String, text: String },
    Other(String),
}

/// SQLite's extended result codes for unique and primary key violations.
pub open spec fn is_unique_violation_code(code: i32) -> bool {
    code == 2067 || code == 1555
}

/// SQLite's extended result codes for the constraint violations other than
/// unique, primary key and foreign key.
pub open spec fn is_other_constraint_code(code: i32) -> bool {
    code == 275 || code == 531 || code == 3091 || code == 1043 || code == 1299 || code == 2835
        || code == 2579 || code == 1811
}

/// The database error a libsql failure stands for; see https://sqlite.org/rescode.html.
pub open spec fn libsql_database_error(error: LibSqlError) -> DatabaseError {
    match error {
        LibSqlError::ToSqlConversionFailure(text) => DatabaseError::Encode(text),
        LibSqlError::QueryReturnedNoRows(text) => DatabaseError::NotFound(text),
        LibSqlError::InvalidColumnIndex(text) => DatabaseError::Decode(text),
        LibSqlError::InvalidColumnType(text) => DatabaseError::Decode(text),
        LibSqlError::ConnectionFailed(text) => DatabaseError::Connection(text),
        LibSqlError::InvalidUtf8Path(text) => DatabaseError::Connection(text),
        LibSqlError::InvalidParserState(text) => DatabaseError::Connection(text),
        LibSqlError::InvalidTlsConfiguration(text) => DatabaseError::Connection(text),
        LibSqlError::SqliteFailure { code, message, text } =>
            if is_unique_violation_code(code) {
                DatabaseError::UniqueViolation(message)
            } else if code == 787 {
                DatabaseError::ForeignKeyViolation(message)
            } else if is_other_constraint_code(code) {
                DatabaseError::OtherConstraintViolation(message)
            } else if code == 773 {
                DatabaseError::Timeout(message)
            } else if code == 3338 {
                DatabaseError::Connection(message)
            } else {
                DatabaseError::Database(text)
            },
        LibSqlError::Other(text) => DatabaseError::Database(text),
    }
}

impl From<LibSqlError> for DatabaseError {
    fn from(error: LibSqlError) -> (database_error: Self) {
        match error {
            LibSqlError::ToSqlConversionFailure(text) => DatabaseError::Encode(text),
            LibSqlError::QueryReturnedNoRows(text) => DatabaseError::NotFound(text),
            LibSqlError::InvalidColumnIndex(text) => DatabaseError::Decode(text),
            LibSqlError::InvalidColumnType(text) => DatabaseError::Decode(text),
            LibSqlError::ConnectionFailed(text) => DatabaseError::Connection(text),
            LibSqlError::InvalidUtf8Path(text) => DatabaseError::Connection(text),
            LibSqlError::InvalidParserState(text) => DatabaseError::Connection(text),
            LibSqlError::InvalidTlsConfiguration(text) => DatabaseError::Connection(text),
            LibSqlError::SqliteFailure { code, message, text } => {
                if code == 2067 || code == 1555 {
                    DatabaseError::UniqueViolation(message)
                } else if code == 787 {
                    DatabaseError::ForeignKeyViolation(message)
                } else if code == 275 || code == 531 || code == 3091 || code == 1043 || code == 1299
                    || code == 2835 || code == 2579 || code == 1811 {
                    DatabaseError::OtherConstraintViolation(message)
                } else if code == 773 {
                    DatabaseError::Timeout(message)
                } else if code == 3338 {
                    DatabaseError::Connection(message)
                } else {
                    DatabaseError::Database(text)
                }
            },
            LibSqlError::Other(text) => DatabaseError::Database(text),
        }
    }
}

impl FromSpecImpl<LibSqlError> for DatabaseError {
    open spec fn obeys_from_spec() -> bool {
        true
    }

    open spec fn from_spec(error: LibSqlError) -> Self {
        libsql_database_error(error)
    }
}

/// A failure of the turso driver, told apart as the store needs it, each with the
/// text by which the driver shows it.
#[derive(Clone, Debug, PartialEq, Eq)]
pub enum TursoError {
    ToSqlConversionFailure(String),
    QueryReturnedNoRows(String),
    ConversionFailure(String),
    Busy(String),
    BusySnapshot(String),
    /// A constraint violation with its message.
    Constraint { message: String, text: String },
    IoError(String),
    Corrupt(String),
    NotAdb(String),
    Error(String),
    Misuse(String),
    Interrupt(String),
    Readonly(String),
    DatabaseFull(String),
}

/// The database error a turso failure stands for.
pub open spec fn turso_database_error(error: TursoError) -> DatabaseError {
    match error {
        TursoError::ToSqlConversionFailure(text) => DatabaseError::Encode(text),
        TursoError::QueryReturnedNoRows(text) => DatabaseError::NotFound(text),
        TursoError::ConversionFailure(text) => DatabaseError::Decode(text),
        TursoError::Busy(text) => DatabaseError::Timeout(text),
        TursoError::BusySnapshot(text) => DatabaseError::TransactionSerialization(text),
        TursoError::Constraint { message, text } => constraint_violation_kind(message@, text),
        TursoError::IoError(text) => DatabaseError::Connection(text),
        TursoError::Corrupt(text) => DatabaseError::Database(text),
        TursoError::NotAdb(text) => DatabaseError::Database(text),
        TursoError::Error(text) => DatabaseError::Database(text),
        TursoError::Misuse(text) => DatabaseError::Database(text),
        TursoError::Interrupt(text) => DatabaseError::Database(text),
        TursoError::Readonly(text) => DatabaseError::Database(text),
        TursoError::DatabaseFull(text) => DatabaseError::Database(text),
    }
}

/// A missing row is `NotFound` for both drivers, directly or through a pool, with
/// the driver's text.
pub proof fn lemma_missing_rows_are_not_found(text: String)
    ensures
        turso_database_error(TursoError::QueryReturnedNoRows(text)) == DatabaseError::NotFound(text),
        libsql_database_error(LibSqlError::QueryReturnedNoRows(text)) == DatabaseError::NotFound(text),
        pool_database_error(PoolError::Backend(TursoError::QueryReturnedNoRows(text)), |error: TursoError| turso_database_error(error))
            == DatabaseError::NotFound(text),
        pool_database_error(PoolError::Backend(LibSqlError::QueryReturnedNoRows(text)), |error: LibSqlError| libsql_database_error(error))
            == DatabaseError::NotFound(text),
{
}

/// Each class of database error stands for exactly one kind of turso failure:
/// `NotFound` for a missing row, `Encode` and `Decode` for failed conversions into
/// and out of SQL, `Timeout` for a busy database, `TransactionSerialization` for a
/// busy snapshot, `Connection` for an I/O failure, and the constraint classes for
/// a constraint violation.
pub proof fn lemma_turso_failures_are_classified_by_kind(error: TursoError)
    ensures
        turso_database_error(error) is NotFound <==> error is QueryReturnedNoRows,
        turso_database_error(error) is Encode <==> error is ToSqlConversionFailure,
        turso_database_error(error) is Decode <==> error is ConversionFailure,
        turso_database_error(error) is Timeout <==> error is Busy,
        turso_database_error(error) is TransactionSerialization <==> error is BusySnapshot,
        turso_database_error(error) is Connection <==> error is IoError,
        (turso_database_error(error) is UniqueViolation || turso_database_error(error) is ForeignKeyViolation
            || turso_database_error(error) is OtherConstraintViolation) <==> error is Constraint,
{
}

/// For libsql too, a missing row and only a missing row is `NotFound`, and a
/// failed conversion into SQL and only that is `Encode`.
pub proof fn lemma_libsql_failures_are_classified_by_kind(error: LibSqlError)
    ensures
        libsql_database_error(error) is NotFound <==> error is QueryReturnedNoRows,
        libsql_database_error(error) is Encode <==> error is ToSqlConversionFailure,
        libsql_database_error(error) is Decode <==> (error is InvalidColumnIndex || error is InvalidColumnType),
{
}

impl From<TursoError> for DatabaseError {
    fn from(error: TursoError) -> (database_error: Self) {
        match error {
            TursoError::ToSqlConversionFailure(text) => DatabaseError::Encode(text),
            TursoError::QueryReturnedNoRows(text) => DatabaseError::NotFound(text),
            TursoError::ConversionFailure(text) => DatabaseError::Decode(text),
            TursoError::Busy(text) => DatabaseError::Timeout(text),
            TursoError::BusySnapshot(text) => DatabaseError::TransactionSerialization(text),
            TursoError::Constraint { message, text } => classify_constraint_violation(message.as_str(), text),
            TursoError::IoError(text) => DatabaseError::Connection(text),
            TursoError::Corrupt(text) => DatabaseError::Database(text),
            TursoError::NotAdb(text) => DatabaseError::Database(text),
            TursoError::Error(text) => DatabaseError::Database(text),
            TursoError::Misuse(text) => DatabaseError::Database(text),
            TursoError::Interrupt(text) => DatabaseError::Database(text),
            TursoError::Readonly(text) => DatabaseError::Database(text),
            TursoError::DatabaseFull(text) => DatabaseError::Database(text),
        }
    }
}

impl FromSpecImpl<TursoError> for DatabaseError {
    open spec fn obeys_from_spec() -> bool {
        true
    }

    open spec fn from_spec(error: TursoError) -> Self {
        turso_database_error(error)
    }
}

/// A failure of a connection pool, wrapping the failures of its backend, each with
/// the text by which the pool shows it.
#[derive(Clone, Debug, PartialEq, Eq)]
pub enum PoolError<E> {
    Timeout(String),
    Backend(E),
    Closed(String),
    NoRuntimeSpecified(String),
    PostCreateHook(String),
}

/// The database error a pool failure stands for, given how the backend's
/// failures are classified.
pub open spec fn pool_database_error<E>(error: PoolError<E>, backend: spec_fn(E) -> DatabaseError) -> DatabaseError {
    match error {
        PoolError::Timeout(text) => DatabaseError::Timeout(text),
        PoolError::Backend(cause) => backend(cause),
        PoolError::Closed(text) => DatabaseError::Connection(text),
        PoolError::NoRuntimeSpecified(text) => DatabaseError::Connection(text),
        PoolError::PostCreateHook(text) => DatabaseError::Connection(text),
    }
}

impl From<PoolError<LibSqlError>> for DatabaseError {
    fn from(error: PoolError<LibSqlError>) -> (database_error: Self) {
        match error {
            PoolError::Timeout(text) => DatabaseError::Timeout(text),
            PoolError::Backend(cause) => DatabaseError::from(cause),
            PoolError::Closed(text) => DatabaseError::Connection(text),
            PoolError::NoRuntimeSpecified(text) => DatabaseError::Connection(text),
            PoolError::PostCreateHook(text) => DatabaseError::Connection(text),
        }
    }
}

impl FromSpecImpl<PoolError<LibSqlError>> for DatabaseError {
    open spec fn obeys_from_spec() -> bool {
        true
    }

    open spec fn from_spec(error: PoolError<LibSqlError>) -> Self {
        pool_database_error(error, |cause: LibSqlError| libsql_database_error(cause))
    }
}

impl From<PoolError<TursoError>> for DatabaseError {
    fn from(error: PoolError<TursoError>) -> (database_error: Self) {
        match error {
            PoolError::Timeout(text) => DatabaseError::Timeout(text),
            PoolError::Backend(cause) => DatabaseError::from(cause),
            PoolError::Closed(text) => DatabaseError::Connection(text),
            PoolError::NoRuntimeSpecified(text) => DatabaseError::Connection(text),
            PoolError::PostCreateHook(text) => DatabaseError::Connection(text),
        }
    }
}

impl FromSpecImpl<PoolError<TursoError>> for DatabaseError {
    open spec fn obeys_from_spec() -> bool {
        true
    }

    open spec fn from_spec(error: PoolError<TursoError>) -> Self {
        pool_database_error(error, |cause: TursoError| turso_database_error(cause))
    }
}

} // verus!
