//! Instants and their truncation to milliseconds.

use account_store::clock::{now_millis, Timestamp, NANOS_PER_MILLI, NANOS_PER_SEC};

#[test]
fn truncation_drops_what_is_finer_than_a_millisecond() {
    let t = Timestamp::new(1_431_648_000, 123_456_789).trunc_to_millis();
    assert_eq!(t, Timestamp::new(1_431_648_000, 123_000_000));
}

#[test]
fn truncation_keeps_an_instant_on_a_millisecond_boundary() {
    let t = Timestamp::new(42, 7_000_000);
    assert_eq!(t.trunc_to_millis(), t);
    assert_eq!(Timestamp::new(42, 0).trunc_to_millis(), Timestamp::new(42, 0));
}

#[test]
fn truncation_is_idempotent() {
    let t = Timestamp::new(-5, 999_999_999);
    let once = t.trunc_to_millis();
    assert_eq!(once, Timestamp::new(-5, 999_000_000));
    assert_eq!(once.trunc_to_millis(), once);
}

#[test]
fn truncation_before_the_epoch_goes_back_in_time() {
    let t = Timestamp::new(-1, 500_000);
    let truncated = t.trunc_to_millis();
    assert_eq!(truncated, Timestamp::new(-1, 0));
    assert!(truncated.le(&t));
    assert!(truncated.lt(&t));
}

#[test]
fn truncation_of_the_shortest_and_longest_remainders() {
    assert_eq!(Timestamp::new(0, 999_999).trunc_to_millis(), Timestamp::new(0, 0));
    assert_eq!(Timestamp::new(0, 1_000_000).trunc_to_millis(), Timestamp::new(0, 1_000_000));
    assert_eq!(Timestamp::new(0, 1_999_999).trunc_to_millis(), Timestamp::new(0, 1_000_000));
}

#[test]
fn order_goes_by_seconds_then_nanoseconds() {
    let a = Timestamp::new(1, 999_999_999);
    let b = Timestamp::new(2, 0);
    let c = Timestamp::new(2, 1);
    assert!(a.lt(&b));
    assert!(a.le(&b));
    assert!(b.lt(&c));
    assert!(!c.le(&b));
    assert!(!b.lt(&b));
    assert!(b.le(&b));
    assert!(Timestamp::new(-3, 5).lt(&Timestamp::new(-2, 0)));
}

#[test]
fn truncation_keeps_the_order() {
    let a = Timestamp::new(7, 1_999_999);
    let b = Timestamp::new(7, 2_000_000);
    assert!(a.le(&b));
    assert!(a.trunc_to_millis().le(&b.trunc_to_millis()));
    let c = Timestamp::new(7, 1_000_001);
    assert!(c.le(&a));
    assert_eq!(c.trunc_to_millis(), a.trunc_to_millis());
}

#[test]
fn clock_reading_is_truncated_and_after_the_epoch() {
    let first = now_millis();
    let second = now_millis();
    assert_eq!(first.nanos % NANOS_PER_MILLI, 0);
    assert!(first.nanos < NANOS_PER_SEC);
    assert!(first.secs > 1_600_000_000);
    assert_eq!(first.trunc_to_millis(), first);
    assert!(second.secs >= first.secs);
}

#[test]
fn constants_of_the_clock() {
    assert_eq!(NANOS_PER_SEC, 1_000_000_000);
    assert_eq!(NANOS_PER_MILLI, 1_000_000);
}

#[test]
fn instant_of_a_count_of_milliseconds() {
    assert_eq!(Timestamp::from_millis(0), Timestamp::new(0, 0));
    assert_eq!(Timestamp::from_millis(1_444), Timestamp::new(1, 444_000_000));
    assert_eq!(Timestamp::from_millis(947_638_923_004), Timestamp::new(947_638_923, 4_000_000));
    assert_eq!(Timestamp::from_millis(-1), Timestamp::new(-1, 999_000_000));
    assert_eq!(Timestamp::from_millis(-1000), Timestamp::new(-1, 0));
    assert_eq!(Timestamp::from_millis(-1001), Timestamp::new(-2, 999_000_000));
    assert_eq!(
        Timestamp::from_millis(i64::MIN),
        Timestamp::new(-9_223_372_036_854_776, 192_000_000)
    );
    assert_eq!(
        Timestamp::from_millis(i64::MAX),
        Timestamp::new(9_223_372_036_854_775, 807_000_000)
    );
}

#[test]
fn count_of_milliseconds_of_an_instant() {
    assert_eq!(Timestamp::new(1, 444_999_999).to_millis(), Some(1_444));
    assert_eq!(Timestamp::new(1_000_000_000, 555_000_000).to_millis(), Some(1_000_000_000_555));
    assert_eq!(Timestamp::new(-1, 999_000_000).to_millis(), Some(-1));
    assert_eq!(Timestamp::new(-2, 0).to_millis(), Some(-2000));
    assert_eq!(Timestamp::new(0, 999_999).to_millis(), Some(0));
}

#[test]
fn count_of_milliseconds_that_does_not_fit() {
    assert_eq!(Timestamp::new(i64::MAX, 0).to_millis(), None);
    assert_eq!(Timestamp::new(i64::MIN, 0).to_millis(), None);
    assert_eq!(Timestamp::new(9_223_372_036_854_775, 807_999_999).to_millis(), Some(i64::MAX));
    assert_eq!(Timestamp::new(9_223_372_036_854_775, 808_000_000).to_millis(), None);
    assert_eq!(Timestamp::new(-9_223_372_036_854_776, 192_000_000).to_millis(), Some(i64::MIN));
    assert_eq!(Timestamp::new(-9_223_372_036_854_776, 191_999_999).to_millis(), None);
}

#[test]
fn truncated_instant_comes_back_from_its_count_of_milliseconds() {
    let t = Timestamp::new(1_700_000_000, 123_456_789);
    let stored = t.trunc_to_millis();
    let millis = stored.to_millis().unwrap();
    assert_eq!(millis, 1_700_000_000_123);
    assert_eq!(Timestamp::from_millis(millis), stored);
    assert_eq!(Timestamp::from_millis(t.to_millis().unwrap()), stored);
}

#[test]
fn clock_reading_agrees_with_the_outside_clock() {
    let before = chrono::Utc::now().timestamp_millis();
    let reading = now_millis().to_millis().unwrap();
    let after = chrono::Utc::now().timestamp_millis();
    assert!(before <= reading);
    assert!(reading <= after);
}

#[test]
fn order_goes_by_the_instant_also_where_the_nanoseconds_pass_a_second() {
    let late = Timestamp::new(1, 1_500_000_000);
    let early = Timestamp::new(2, 400_000_000);
    assert!(early.lt(&late));
    assert!(!late.le(&early));
    assert_eq!(late.nanos_since_epoch(), 2_500_000_000);
    assert_eq!(Timestamp::new(-1, 1).nanos_since_epoch(), -999_999_999);
    assert_eq!(late.trunc_to_millis(), Timestamp::new(1, 1_500_000_000));
    assert_eq!(Timestamp::new(1, 1_500_000_001).trunc_to_millis(), late);
}
