use bonsaimq::runner::{
    completion_outcome, default_concurrency, due_fetch_limit, next_message_due_in, poll_timeout,
};
use bonsaidb_core::document::DocumentId;
use bonsaidb_core::schema::{CollectionName, Qualified};
use bonsaimq::runner::should_start;
use bonsaimq::{DbError, DbErrorKind, Duration, Error, Message, RetryTiming};

#[test]
fn default_concurrency_from_cpus() {
    assert_eq!(default_concurrency(Some(8)), 4..16);
    assert_eq!(default_concurrency(Some(1)), 0..2);
    assert_eq!(default_concurrency(None), 3..8);
}

#[test]
fn fetch_only_below_minimum() {
    assert_eq!(due_fetch_limit(0, &(3..8)), Some(8));
    assert_eq!(due_fetch_limit(2, &(3..8)), Some(6));
    assert_eq!(due_fetch_limit(3, &(3..8)), None);
    assert_eq!(due_fetch_limit(9, &(3..8)), None);
    assert_eq!(due_fetch_limit(4, &(10..2)), Some(0));
}

#[test]
fn due_in_is_clamped() {
    assert_eq!(next_message_due_in(100, Some(350)), Duration::from_nanos(250));
    assert_eq!(next_message_due_in(100, Some(40)), Duration::zero());
    assert_eq!(next_message_due_in(100, None), Duration::from_secs(10));
    assert_eq!(next_message_due_in(0, Some(i128::MAX)), Duration::from_nanos(u64::MAX));
}

#[test]
fn poll_waits_at_least_100_ms() {
    assert_eq!(poll_timeout(Duration::zero()), Duration::from_millis(100));
    assert_eq!(poll_timeout(Duration::from_secs(3)), Duration::from_secs(3));
}

#[test]
fn completion_ignores_only_missing_documents() {
    assert!(completion_outcome(Ok(())).is_ok());
    let missing = bonsaidb_core::Error::DocumentNotFound(
        CollectionName::new("khonsulabs", "messages"),
        Box::new(DocumentId::from_u64(3)),
    );
    assert!(completion_outcome(Err(Error::BonsaiDb(DbError::new(missing)))).is_ok());
    let other = completion_outcome(Err(Error::BonsaiDb(DbError::new(
        bonsaidb_core::Error::ViewNotFound,
    ))));
    assert!(matches!(other, Err(Error::BonsaiDb(ref e)) if e.kind() == DbErrorKind::Other));
    let network = completion_outcome(Err(Error::BonsaiDb(DbError::new(
        bonsaidb_core::Error::Networking(bonsaidb_core::networking::Error::ConnectTimeout),
    ))));
    assert!(matches!(network, Err(Error::BonsaiDb(ref e)) if e.kind() == DbErrorKind::Networking));
}

#[test]
fn runner_starts_only_due_registered_free_messages() {
    let message = Message {
        id: 2,
        name: "counter".to_owned(),
        created_at: 0,
        attempt_at: 50,
        executions: 0,
        max_executions: None,
        retry_timing: RetryTiming::Fixed(Duration::from_millis(10)),
        ordered: true,
        execute_after: Some(1),
    };
    assert!(should_start(&message, 51, true, false));
    assert!(!should_start(&message, 50, true, false));
    assert!(!should_start(&message, 51, false, false));
    assert!(!should_start(&message, 51, true, true));
}
