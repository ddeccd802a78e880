use yuki_rs::time::Timestamp;

#[test]
fn nanos_since_epoch() {
    assert_eq!(Timestamp::new(2, 5).to_nanos(), 2_000_000_005);
    assert_eq!(Timestamp::new(-1, 0).to_nanos(), -1_000_000_000);
    assert_eq!(Timestamp::new(i64::MAX, 999_999_999).to_nanos(), i64::MAX as i128 * 1_000_000_000 + 999_999_999);
    assert_eq!(Timestamp::unix_epoch().to_nanos(), 0);
}

#[test]
fn ordering_of_times() {
    let a = Timestamp::new(10, 500);
    let b = Timestamp::new(10, 501);
    assert!(b.is_at_or_after(&a));
    assert!(!a.is_at_or_after(&b));
    assert!(a.is_at_or_after(&a));
    assert!(Timestamp::new(11, -1).is_at_or_after(&Timestamp::new(10, 999_999_999)));
}

#[test]
fn moving_by_seconds() {
    assert_eq!(Timestamp::new(10, 3).plus_seconds(300), Timestamp::new(310, 3));
    assert_eq!(Timestamp::new(10, 3).plus_seconds(-60), Timestamp::new(-50, 3));
}
