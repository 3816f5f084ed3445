use std::num::NonZeroU32;

use bonsaidb_core::document::{DocumentId, Header, Revision};
use bonsaidb_core::networking;
use bonsaidb_core::schema::{CollectionName, Qualified};
use bonsaimq::runner::completion_outcome;
use bonsaimq::{DbError, DbErrorKind, Error};

fn collection() -> CollectionName {
    CollectionName::new("khonsulabs", "messages")
}

fn conflict() -> bonsaidb_core::Error {
    bonsaidb_core::Error::DocumentConflict(
        collection(),
        Box::new(Header { id: DocumentId::from_u64(1), revision: Revision::new(b"doc") }),
    )
}

fn not_found() -> bonsaidb_core::Error {
    bonsaidb_core::Error::DocumentNotFound(collection(), Box::new(DocumentId::from_u64(1)))
}

#[test]
fn database_errors_are_classified() {
    assert_eq!(DbError::new(conflict()).kind(), DbErrorKind::DocumentConflict);
    assert_eq!(DbError::new(not_found()).kind(), DbErrorKind::DocumentNotFound);
    assert_eq!(
        DbError::new(bonsaidb_core::Error::Networking(networking::Error::Disconnected)).kind(),
        DbErrorKind::Networking
    );
    assert_eq!(DbError::new(bonsaidb_core::Error::ViewNotFound).kind(), DbErrorKind::Other);
}

#[test]
fn only_conflicts_and_network_errors_are_retried() {
    assert!(Error::BonsaiDb(DbError::new(conflict())).should_retry());
    assert!(Error::BonsaiDb(DbError::new(bonsaidb_core::Error::Networking(
        networking::Error::RequestTimeout
    )))
    .should_retry());
    assert!(!Error::BonsaiDb(DbError::new(not_found())).should_retry());
    assert!(!Error::BonsaiDb(DbError::new(bonsaidb_core::Error::ViewNotFound)).should_retry());
    assert!(!Error::TryFromInt(u8::try_from(300_u16).unwrap_err()).should_retry());
    let random = getrandom::Error::from(NonZeroU32::new(getrandom::Error::CUSTOM_START).unwrap());
    assert!(!Error::Getrandom(random).should_retry());
}

#[test]
fn completing_a_vanished_job_succeeds() {
    assert!(completion_outcome(Err(Error::BonsaiDb(DbError::new(not_found())))).is_ok());
    assert!(Error::BonsaiDb(DbError::new(not_found())).is_missing_document());
    let r = completion_outcome(Err(Error::BonsaiDb(DbError::new(conflict()))));
    assert!(matches!(r, Err(Error::BonsaiDb(ref e)) if e.kind() == DbErrorKind::DocumentConflict));
    let r = completion_outcome(Err(Error::TryFromInt(u8::try_from(300_u16).unwrap_err())));
    assert!(matches!(r, Err(Error::TryFromInt(_))));
}

#[test]
fn database_error_keeps_its_source() {
    let e = DbError::new(not_found());
    assert!(matches!(e.source(), bonsaidb_core::Error::DocumentNotFound(..)));
    assert!(matches!(e.into_source(), bonsaidb_core::Error::DocumentNotFound(..)));
}
