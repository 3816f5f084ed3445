use bonsaimq::retry::saturating_power_of_two;
use bonsaimq::{Duration, RetryTiming};

fn backoff(initial_ms: u64, maximum_ms: Option<u64>) -> RetryTiming {
    RetryTiming::Backoff {
        initial: Duration::from_millis(initial_ms),
        maximum: maximum_ms.map(Duration::from_millis),
    }
}

#[test]
fn fixed_timing_is_constant() {
    let timing = RetryTiming::Fixed(Duration::from_millis(10));
    for executions in [0, 1, 2, 17, u32::MAX] {
        assert_eq!(timing.next_duration(executions), Duration::from_millis(10));
    }
}

#[test]
fn backoff_doubles_from_initial() {
    let timing = backoff(1_000, None);
    assert_eq!(timing.next_duration(0), Duration::from_secs(1));
    assert_eq!(timing.next_duration(1), Duration::from_secs(1));
    assert_eq!(timing.next_duration(2), Duration::from_secs(2));
    assert_eq!(timing.next_duration(3), Duration::from_secs(4));
    assert_eq!(timing.next_duration(11), Duration::from_secs(1024));
}

#[test]
fn backoff_is_capped_by_maximum() {
    let timing = backoff(1_000, Some(60 * 60 * 1000));
    assert_eq!(timing.next_duration(12), Duration::from_secs(2048));
    assert_eq!(timing.next_duration(13), Duration::from_secs(3600));
    assert_eq!(timing.next_duration(100), Duration::from_secs(3600));
    assert_eq!(timing.next_duration(u32::MAX), Duration::from_secs(3600));
}

#[test]
fn backoff_factor_saturates() {
    // 2^40 saturates at u32::MAX
    let timing = backoff(1, None);
    assert_eq!(timing.next_duration(41), Duration::from_millis(u32::MAX as u64));
    // a huge initial wait saturates at the largest span
    let timing = RetryTiming::Backoff { initial: Duration::from_secs(u64::MAX), maximum: None };
    assert_eq!(timing.next_duration(2), Duration::maximum());
}

#[test]
fn backoff_is_monotone() {
    let timing = backoff(7, Some(100_000));
    let mut previous = timing.next_duration(0);
    for executions in 1..64 {
        let next = timing.next_duration(executions);
        assert!(next.as_nanos() >= previous.as_nanos());
        previous = next;
    }
}

#[test]
fn power_of_two_saturates() {
    assert_eq!(saturating_power_of_two(0), 1);
    assert_eq!(saturating_power_of_two(10), 1024);
    assert_eq!(saturating_power_of_two(31), 1 << 31);
    assert_eq!(saturating_power_of_two(32), u32::MAX);
    assert_eq!(saturating_power_of_two(u32::MAX), u32::MAX);
}
