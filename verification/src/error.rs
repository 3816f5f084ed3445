//! The queue's error type and which of its errors are worth retrying.

use bonsaidb_core::pubsub::Disconnected;
use bonsaidb_core::Error as DatabaseError;
use getrandom::Error as RandomError;
use serde_json::Error as JsonError;
use vstd::prelude::*;

verus! {

/// The database's error type, carried through unchanged.
#[verifier::external_type_specification]
#[verifier::external_body]
pub struct ExDatabaseError(DatabaseError);

/// The error of a publish/subscribe receiver that lost its sender.
#[verifier::external_type_specification]
#[verifier::external_body]
pub struct ExDisconnected(Disconnected);

/// The error of the operating system's random number source.
#[verifier::external_type_specification]
#[verifier::external_body]
pub struct ExRandomError(RandomError);

/// The error of JSON (de-)serialization.
#[verifier::external_type_specification]
#[verifier::external_body]
pub struct ExJsonError(JsonError);

/// The variants of a database error that the queue tells apart.
#[derive(Clone, Copy, Debug, PartialEq, Eq, Structural)]
pub enum DbErrorKind {
    /// A document was changed concurrently (a revision conflict).
    DocumentConflict,
    /// Talking to the database over the network failed.
    Networking,
    /// The document to act on does not exist.
    DocumentNotFound,
    /// Any other database error.
    Other,
}

/// The kind of a database error: which of the variants the queue tells apart
/// it is. A function of the error alone.
pub uninterp spec fn database_error_kind(error: DatabaseError) -> DbErrorKind;

/// Tells the variants of a database error apart: `DocumentConflict`,
/// `Networking` and `DocumentNotFound` of `bonsaidb::core::Error` map to the
/// kinds of the same name, every other variant to `Other`. The result is the
/// error's kind, `database_error_kind`.
#[verifier::external_body]
fn classify_database_error(error: &DatabaseError) -> (kind: DbErrorKind)
    ensures
        kind == database_error_kind(*error),
{
    match error {
        DatabaseError::DocumentConflict(..) => DbErrorKind::DocumentConflict,
        DatabaseError::Networking(..) => DbErrorKind::Networking,
        DatabaseError::DocumentNotFound(..) => DbErrorKind::DocumentNotFound,
        _ => DbErrorKind::Other,
    }
}

/// A database error together with its kind. The kind is only ever the one
/// `new` records for the error, `database_error_kind` of it; the view is the
/// kind.
#[derive(Debug)]
pub struct DbError {
    kind: DbErrorKind,
    source: DatabaseError,
}

impl View for DbError {
    type V = DbErrorKind;

    closed spec fn view(&self) -> DbErrorKind {
        self.kind
    }
}

impl DbError {
    /// The error the database reported.
    pub closed spec fn spec_source(&self) -> DatabaseError {
        self.source
    }

    /// Wraps a database error, recording its kind.
    pub fn new(source: DatabaseError) -> (e: DbError)
        ensures
            e.spec_source() == source,
            e@ == database_error_kind(source),
    {
        let kind = classify_database_error(&source);
        DbError { kind, source }
    }

    /// Which kind of database error this is.
    pub fn kind(&self) -> (kind: DbErrorKind)
        ensures
            kind == self@,
    {
        self.kind
    }

    /// The error the database reported.
    pub fn source(&self) -> (source: &DatabaseError)
        ensures
            *source == self.spec_source(),
    {
        &self.source
    }

    /// Gives back the error the database reported.
    pub fn into_source(self) -> (source: DatabaseError)
        ensures
            source == self.spec_source(),
    {
        self.source
    }
}

/// The queue's error type.
#[derive(Debug)]
pub enum Error {
    /// An error of the database.
    BonsaiDb(DbError),
    /// The publish/subscribe channel was disconnected.
    PubSubDisconnected(Disconnected),
    /// The random number source failed.
    Getrandom(RandomError),
    /// An integer did not fit the type it was converted to.
    TryFromInt(core::num::TryFromIntError),
    /// JSON (de-)serialization failed.
    SerdeJson(JsonError),
}

impl Error {
    /// Whether an error is a database revision conflict or a networking error.
    pub open spec fn is_retryable(self) -> bool {
        match self {
            Error::BonsaiDb(e) => e@ == DbErrorKind::DocumentConflict || e@ == DbErrorKind::Networking,
            _ => false,
        }
    }

    /// Whether an error is the database's report that a document is missing.
    pub open spec fn reports_missing_document(self) -> bool {
        match self {
            Error::BonsaiDb(e) => e@ == DbErrorKind::DocumentNotFound,
            _ => false,
        }
    }

    /// Whether this is the database's report that a document is missing.
    pub fn is_missing_document(&self) -> (missing: bool)
        ensures
            missing == self.reports_missing_document(),
    {
        match self {
            Error::BonsaiDb(e) => match e.kind() {
                DbErrorKind::DocumentNotFound => true,
                _ => false,
            },
            _ => false,
        }
    }

    /// Whether the action that lead to this error should likely be retried: true
    /// exactly for database revision conflicts and networking errors.
    pub fn should_retry(&self) -> (retry: bool)
        ensures
            retry == self.is_retryable(),
    {
        match self {
            Error::BonsaiDb(e) => match e.kind() {
                DbErrorKind::DocumentConflict => true,
                DbErrorKind::Networking => true,
                _ => false,
            },
            _ => false,
        }
    }
}

} // verus!
