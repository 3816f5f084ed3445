use bonsaimq::{Duration, Message, RetryTiming};

fn message(max_executions: Option<u32>, timing: RetryTiming) -> Message {
    Message {
        id: 123_456_789,
        name: "counter".to_owned(),
        created_at: 1_000,
        attempt_at: 1_000,
        executions: 0,
        max_executions,
        retry_timing: timing,
        ordered: false,
        execute_after: Some(42),
    }
}

#[test]
fn register_execution_counts_and_reschedules() {
    let mut m = message(None, RetryTiming::Fixed(Duration::from_millis(10)));
    assert!(m.register_execution(5_000));
    assert_eq!(m.executions, 1);
    assert_eq!(m.attempt_at, 5_000 + 10_000_000);
    assert_eq!(m.id, 123_456_789);
    assert_eq!(m.dependency(), Some(42));
}

#[test]
fn budget_of_five_runs_five_times() {
    let mut m = message(Some(5), RetryTiming::Fixed(Duration::from_millis(10)));
    let mut runs = 0;
    for attempt in 0..8 {
        if m.register_execution(attempt) {
            runs += 1;
        }
    }
    assert_eq!(runs, 5);
    assert_eq!(m.executions, 8);
    // the last run rescheduled it; the refused attempts left the due time alone
    assert_eq!(m.attempt_at, 4 + 10_000_000);
}

#[test]
fn zero_budget_never_runs() {
    let mut m = message(Some(0), RetryTiming::Fixed(Duration::from_secs(1)));
    assert!(!m.register_execution(7));
    assert_eq!(m.attempt_at, 1_000);
    assert_eq!(m.executions, 1);
}

#[test]
fn register_execution_uses_backoff_of_new_count() {
    let timing = RetryTiming::Backoff { initial: Duration::from_secs(1), maximum: None };
    let mut m = message(None, timing);
    m.executions = 2;
    assert!(m.register_execution(0));
    // third execution: 2^(3-1) seconds
    assert_eq!(m.attempt_at, 4_000_000_000);
}

#[test]
fn job_update_reads_the_clock() {
    let mut m = message(Some(2), RetryTiming::Fixed(Duration::from_secs(3)));
    let before = m.clone();
    assert!(m.job_update());
    assert_eq!(m.executions, 1);
    assert!(m.attempt_at > before.attempt_at);
    assert!(m.job_update());
    assert!(!m.job_update());
    assert_eq!(m.executions, 3);
}

#[test]
fn job_update_with_largest_wait_still_fits() {
    // the largest span (about 1.8e28 ns) still fits next to today's clock
    let mut m = message(None, RetryTiming::Fixed(Duration::maximum()));
    assert!(m.job_update());
    assert!(m.attempt_at > u64::MAX as i128);
}

#[test]
fn extend_deadline_uses_current_count() {
    let timing = RetryTiming::Backoff { initial: Duration::from_millis(500), maximum: None };
    let mut m = message(None, timing);
    m.executions = 2;
    let wait = m.extend_deadline(10);
    assert_eq!(wait, Duration::from_secs(1));
    assert_eq!(m.attempt_at, 10 + 1_000_000_000);
    assert_eq!(m.executions, 2);
}

#[test]
fn keep_alive_pushes_the_deadline() {
    let mut m = message(None, RetryTiming::Fixed(Duration::from_millis(500)));
    let wait = m.keep_alive();
    assert_eq!(wait, Duration::from_millis(500));
    assert!(m.attempt_at > 1_000);
    assert_eq!(m.executions, 0);
}

#[test]
fn dependent_message_waits_for_its_dependency() {
    let m = message(None, RetryTiming::Fixed(Duration::from_secs(1)));
    assert!(!m.may_start(true));
    assert!(m.may_start(false));
    let mut free = m.clone();
    free.execute_after = None;
    assert!(free.may_start(true));
    assert!(free.may_start(false));
}

#[test]
fn keep_alive_with_largest_wait_still_fits() {
    let mut m = message(None, RetryTiming::Fixed(Duration::maximum()));
    assert_eq!(m.keep_alive(), Duration::maximum());
    assert!(m.attempt_at > u64::MAX as i128);
}
