use bonsaimq::{Duration, Error, JobBuilder, RetryTiming};

#[test]
fn builder_defaults() {
    let (message, payload) = JobBuilder::new("greet").build_entries(None, 7, 1_000);
    assert_eq!(message.id, 7);
    assert_eq!(message.name, "greet");
    assert_eq!(message.created_at, 1_000);
    assert_eq!(message.attempt_at, 1_000);
    assert_eq!(message.executions, 0);
    assert_eq!(message.max_executions, None);
    assert!(!message.ordered);
    assert_eq!(message.execute_after, None);
    assert_eq!(
        message.retry_timing,
        RetryTiming::Backoff {
            initial: Duration::from_secs(1),
            maximum: Some(Duration::from_secs(3600)),
        }
    );
    assert_eq!(payload.message_id, 7);
    assert!(payload.payload_json.is_none());
    assert!(payload.payload_bytes.is_none());
}

#[test]
fn builder_settings_reach_the_records() {
    let builder = JobBuilder::new("counter")
        .id(99)
        .ordered(true)
        .delay(Some(Duration::from_millis(500)))
        .max_retries(Some(5))
        .retry_timing(RetryTiming::Fixed(Duration::from_millis(10)))
        .payload_json(serde_json::Value::String("cats".to_owned()))
        .payload_bytes(vec![1, 2, 3]);
    assert!(builder.is_ordered());
    let (message, payload) = builder.build_entries(Some(41), 99, 2_000);
    assert_eq!(message.attempt_at, 2_000 + 500_000_000);
    assert_eq!(message.max_executions, Some(5));
    assert!(message.ordered);
    assert_eq!(message.execute_after, Some(41));
    assert_eq!(message.retry_timing, RetryTiming::Fixed(Duration::from_millis(10)));
    assert_eq!(payload.payload_bytes, Some(vec![1, 2, 3]));
    assert_eq!(payload.payload_json, Some(serde_json::Value::String("cats".to_owned())));
}

#[test]
fn unordered_jobs_have_no_dependency() {
    let (message, _) = JobBuilder::new("x").build_entries(Some(41), 1, 0);
    assert_eq!(message.execute_after, None);
}

#[test]
fn prepare_keeps_chosen_id() {
    let (message, payload) =
        JobBuilder::new("same").id(999).prepare_db_entries(None).expect("entries");
    assert_eq!(message.id, 999);
    assert_eq!(payload.message_id, 999);
    assert!(message.created_at > 0);
    assert_eq!(message.attempt_at, message.created_at);
}

#[test]
fn prepare_generates_random_ids() {
    let (first, _) = JobBuilder::new("a").prepare_db_entries(None).expect("entries");
    let (second, _) = JobBuilder::new("a").prepare_db_entries(None).expect("entries");
    assert_ne!(first.id, second.id);
}

#[test]
fn prepare_applies_delay() {
    let (message, _) = JobBuilder::new("late")
        .delay(Some(Duration::from_secs(999)))
        .prepare_db_entries(None)
        .expect("entries");
    assert_eq!(message.attempt_at - message.created_at, 999_000_000_000);
    let result: Result<_, Error> = JobBuilder::new("late").prepare_db_entries(None);
    assert!(result.is_ok());
}

#[test]
fn delayed_job_with_chosen_id_keeps_it() {
    let (message, payload) = JobBuilder::new("late")
        .id(12)
        .delay(Some(Duration::maximum()))
        .prepare_db_entries(None)
        .expect("entries");
    assert_eq!(message.id, 12);
    assert_eq!(payload.message_id, 12);
    assert_eq!(
        message.attempt_at - message.created_at,
        Duration::maximum().as_nanos() as i128
    );
}

#[test]
fn max_executions_sets_the_budget() {
    let (message, _) = JobBuilder::new("counter").max_executions(Some(5)).build_entries(None, 1, 0);
    assert_eq!(message.max_executions, Some(5));
}
