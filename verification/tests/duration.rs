use bonsaimq::Duration;

#[test]
fn duration_constructors_agree() {
    assert_eq!(Duration::from_secs(2).as_nanos(), 2_000_000_000);
    assert_eq!(Duration::from_millis(1_500).as_nanos(), 1_500_000_000);
    assert_eq!(Duration::from_nanos(1_500_000_001).as_secs(), 1);
    assert_eq!(Duration::from_nanos(1_500_000_001).subsec_nanos(), 500_000_001);
    assert_eq!(Duration::new(1, 2_000_000_001).as_nanos(), 3_000_000_001);
    assert_eq!(Duration::zero().as_nanos(), 0);
}

#[test]
fn duration_maximum_value() {
    let max = Duration::maximum();
    assert_eq!(max.as_secs(), u64::MAX);
    assert_eq!(max.subsec_nanos(), 999_999_999);
    assert_eq!(max.as_nanos(), u64::MAX as u128 * 1_000_000_000 + 999_999_999);
}

#[test]
fn duration_saturating_mul() {
    assert_eq!(Duration::from_millis(300).saturating_mul(7).as_nanos(), 2_100_000_000);
    assert_eq!(Duration::from_secs(5).saturating_mul(0), Duration::zero());
    assert_eq!(Duration::from_secs(u64::MAX / 2 + 1).saturating_mul(2), Duration::maximum());
    assert_eq!(Duration::maximum().saturating_mul(1), Duration::maximum());
}

#[test]
fn duration_min_and_max() {
    let a = Duration::from_millis(1_001);
    let b = Duration::from_secs(1);
    assert_eq!(a.min(b), b);
    assert_eq!(a.max(b), a);
    assert_eq!(b.min(a), b);
    assert_eq!(b.max(a), a);
}
