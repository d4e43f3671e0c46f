//! Errors of the storage layer, as the handlers see them.

use vstd::prelude::*;
use vstd::std_specs::convert::FromSpecImpl;
use vstd::string::StringExecFns;

verus! {

/// What kind of error the storage layer reports.
#[derive(Debug, Clone)]
pub enum ErrorKind {
    /// An error handed up from a collaborator.
    FromFailure,
    /// The database refused a statement; the text says why.
    DatabaseError(String),
    /// Document not found in database. Results in status code 404.
    NotFound { row_type: String },
    /// The key used already exists in the database.
    AlreadyExists(String),
    /// Something else went wrong inside the server.
    InternalServerError(String),
}

/// An error of the storage layer.
#[derive(Debug)]
pub struct Error {
    pub inner: ErrorKind,
}

/// The constraint that a database says a statement has violated.
#[derive(Debug, Clone, Copy, PartialEq, Eq, Structural)]
pub enum DatabaseFault {
    ForeignKeyViolation,
    SerializationFailure,
    UnableToSendCommand,
    UniqueViolation,
    Unknown,
}

/// How a query failed.
#[derive(Debug, Clone, Copy, PartialEq, Eq, Structural)]
pub enum QueryFault {
    /// The database refused the statement.
    Database(DatabaseFault),
    /// No row was found.
    NotFound,
    /// Anything else.
    Other,
}

/// How a query failed, and what the failure reads as when it is printed
/// for debugging.
#[derive(Debug)]
pub struct QueryFailure {
    pub fault: QueryFault,
    pub debug: String,
}

impl DatabaseFault {
    /// What a client is told about a refused statement.
    pub open spec fn text(self) -> Seq<char> {
        match self {
            DatabaseFault::ForeignKeyViolation => "A foreign key constraint was violated in the database"@,
            DatabaseFault::SerializationFailure => "Value failed to serialize in the database"@,
            DatabaseFault::UnableToSendCommand => "Database protocol violation, possibly too many bound parameters"@,
            DatabaseFault::UniqueViolation => "A unique constraint was violated in the database"@,
            DatabaseFault::Unknown => "An unknwon error occurred in the database"@,
        }
    }

    /// What a client is told about a refused statement.
    pub fn message(self) -> (text: &'static str)
        ensures
            text@ == self.text(),
    {
        match self {
            DatabaseFault::ForeignKeyViolation => "A foreign key constraint was violated in the database",
            DatabaseFault::SerializationFailure => "Value failed to serialize in the database",
            DatabaseFault::UnableToSendCommand => "Database protocol violation, possibly too many bound parameters",
            DatabaseFault::UniqueViolation => "A unique constraint was violated in the database",
            DatabaseFault::Unknown => "An unknwon error occurred in the database",
        }
    }
}

/// What an error kind holds, as text.
pub enum KindView {
    FromFailure,
    DatabaseError(Seq<char>),
    NotFound(Seq<char>),
    AlreadyExists(Seq<char>),
    InternalServerError(Seq<char>),
}

impl View for ErrorKind {
    type V = KindView;

    open spec fn view(&self) -> KindView {
        match *self {
            ErrorKind::FromFailure => KindView::FromFailure,
            ErrorKind::DatabaseError(m) => KindView::DatabaseError(m@),
            ErrorKind::NotFound { row_type } => KindView::NotFound(row_type@),
            ErrorKind::AlreadyExists(m) => KindView::AlreadyExists(m@),
            ErrorKind::InternalServerError(m) => KindView::InternalServerError(m@),
        }
    }
}

impl Error {
    /// The kind of the error.
    pub fn kind(&self) -> (kind: &ErrorKind)
        ensures
            *kind == self.inner,
    {
        &self.inner
    }

    /// The error that a handler sees for a failed query: a refused
    /// statement with the words for its constraint, a missing row as
    /// something not found, anything else as a failure inside the server.
    pub open spec fn of_query(fault: QueryFault) -> KindView {
        match fault {
            QueryFault::Database(kind) => KindView::DatabaseError(kind.text()),
            QueryFault::NotFound => KindView::NotFound("Not implemented"@),
            QueryFault::Other => KindView::InternalServerError("Internal Server Error"@),
        }
    }

    /// The error that a handler sees for a failed query.
    pub fn from_query(fault: QueryFault) -> (error: Error)
        ensures
            error.inner@ == Error::of_query(fault),
    {
        match fault {
            QueryFault::Database(kind) => Error {
                inner: ErrorKind::DatabaseError(kind.message().to_owned()),
            },
            QueryFault::NotFound => Error {
                inner: ErrorKind::NotFound { row_type: "Not implemented".to_owned() },
            },
            QueryFault::Other => Error {
                inner: ErrorKind::InternalServerError("Internal Server Error".to_owned()),
            },
        }
    }
}

impl From<ErrorKind> for Error {
    fn from(kind: ErrorKind) -> (error: Error) {
        Error { inner: kind }
    }
}

impl FromSpecImpl<ErrorKind> for Error {
    open spec fn obeys_from_spec() -> bool {
        true
    }

    open spec fn from_spec(kind: ErrorKind) -> Error {
        Error { inner: kind }
    }
}

/// The error for a failed query on rows of the type named `row_type`: a
/// missing row names the type, anything else gives the debug print of the
/// failure after the words "Database error: ".
pub open spec fn handled(row_type: Seq<char>, fault: QueryFault, debug: Seq<char>) -> KindView {
    match fault {
        QueryFault::NotFound => KindView::NotFound(row_type),
        _ => KindView::DatabaseError("Database error: "@ + debug),
    }
}

/// Turns a failed query on rows of the type named `row_type` into the
/// error that the handler sees.
pub fn handle_err(row_type: String, failure: QueryFailure) -> (error: Error)
    ensures
        error.inner@ == handled(row_type@, failure.fault, failure.debug@),
{
    match failure.fault {
        QueryFault::NotFound => Error { inner: ErrorKind::NotFound { row_type } },
        _ => Error {
            inner: ErrorKind::DatabaseError(
                String::from_str("Database error: ").concat(failure.debug.as_str()),
            ),
        },
    }
}

} // verus!
