use doc_signer::time::TimeSpan;
use doc_signer::time::Timestamp;
use doc_signer::time::NANOS_PER_SEC;
use std::time::SystemTime;
use std::time::UNIX_EPOCH;

#[test]
fn a_second_has_a_billion_nanoseconds() {
    assert_eq!(NANOS_PER_SEC, 1_000_000_000);
}

#[test]
fn from_secs_holds_whole_seconds() {
    let span = TimeSpan::from_secs(90);
    assert_eq!(span, TimeSpan { secs: 90, nanos: 0 });
    assert_eq!(span.as_nanos(), 90_000_000_000);
}

#[test]
fn as_nanos_adds_seconds_and_nanoseconds() {
    assert_eq!(TimeSpan { secs: 0, nanos: 0 }.as_nanos(), 0);
    assert_eq!(TimeSpan { secs: 2, nanos: 5 }.as_nanos(), 2_000_000_005);
    assert_eq!(TimeSpan { secs: 1, nanos: 1_500_000_000 }.as_nanos(), 2_500_000_000);
    assert_eq!(
        TimeSpan { secs: u64::MAX, nanos: u32::MAX }.as_nanos(),
        18_446_744_073_709_551_615_000_000_000 + 4_294_967_295
    );
}

#[test]
fn thirty_days_in_nanoseconds() {
    assert_eq!(TimeSpan::from_secs(30 * 24 * 60 * 60).as_nanos(), 2_592_000_000_000_000);
}

#[test]
fn timestamps_around_the_epoch() {
    let span = TimeSpan { secs: 3, nanos: 7 };
    assert_eq!(Timestamp::after_epoch(span), Timestamp { nanos: 3_000_000_007 });
    assert_eq!(Timestamp::before_epoch(span), Timestamp { nanos: -3_000_000_007 });
    assert_eq!(Timestamp::after_epoch(TimeSpan::from_secs(0)), Timestamp { nanos: 0 });
    assert_eq!(Timestamp::before_epoch(TimeSpan::from_secs(0)), Timestamp { nanos: 0 });
}

#[test]
fn clock_readings_on_both_sides_of_the_epoch() {
    let span = TimeSpan { secs: 1, nanos: 2 };
    assert_eq!(Timestamp::from_clock_reading(Ok(span)), Timestamp { nanos: 1_000_000_002 });
    assert_eq!(Timestamp::from_clock_reading(Err(span)), Timestamp { nanos: -1_000_000_002 });
}

#[test]
fn plus_moves_a_timestamp_forward() {
    let start = Timestamp { nanos: -10 };
    assert_eq!(start.plus(TimeSpan { secs: 0, nanos: 10 }), Timestamp { nanos: 0 });
    assert_eq!(start.plus(TimeSpan::from_secs(1)), Timestamp { nanos: 999_999_990 });
    assert_eq!(start.plus(TimeSpan::from_secs(0)), start);
    let largest = TimeSpan { secs: u64::MAX, nanos: u32::MAX };
    assert_eq!(
        Timestamp { nanos: 1 }.plus(largest),
        Timestamp { nanos: 18_446_744_073_709_551_615_000_000_000 + 4_294_967_295 + 1 }
    );
}

#[test]
fn is_after_is_strict() {
    let early = Timestamp { nanos: 5 };
    let late = Timestamp { nanos: 6 };
    assert!(late.is_after(early));
    assert!(!early.is_after(late));
    assert!(!early.is_after(early));
    assert!(early.is_after(Timestamp { nanos: -5 }));
}

#[test]
fn now_follows_the_system_clock() {
    let before = SystemTime::now().duration_since(UNIX_EPOCH).unwrap().as_nanos() as i128;
    let now = Timestamp::now();
    let after = SystemTime::now().duration_since(UNIX_EPOCH).unwrap().as_nanos() as i128;
    assert!(before <= now.nanos);
    assert!(now.nanos <= after);
}
