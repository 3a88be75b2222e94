use realtime_chat::clock::{Timestamp, MAX_SECS, MAX_SPAN_SECS, MIN_SECS};

fn at(secs: i64, nanos: u32) -> Timestamp {
    Timestamp::new(secs, nanos).unwrap()
}

#[test]
fn points_outside_the_calendar_are_refused() {
    assert!(Timestamp::new(0, 0).is_some());
    assert!(Timestamp::new(MIN_SECS, 0).is_some());
    assert!(Timestamp::new(MIN_SECS - 1, 0).is_none());
    assert!(Timestamp::new(MAX_SECS, 999_999_999).is_some());
    assert!(Timestamp::new(MAX_SECS + 1, 0).is_none());
}

#[test]
fn leap_seconds_stand_only_at_the_end_of_a_minute() {
    assert!(Timestamp::new(1_483_228_799, 1_500_000_000).is_some());
    assert!(Timestamp::new(1_483_228_798, 1_500_000_000).is_none());
    assert!(Timestamp::new(1_483_228_799, 2_000_000_000).is_none());
    assert!(Timestamp::new(-1, 1_000_000_000).is_some());
}

#[test]
fn points_agree_with_the_calendar_crate() {
    let limits = [(MIN_SECS, 0), (MAX_SECS, 999_999_999), (-1, 1_000_000_000), (59, 1_999_999_999)];
    for (secs, nanos) in limits {
        assert!(Timestamp::new(secs, nanos).is_some());
        assert!(chrono::DateTime::from_timestamp(secs, nanos).is_some());
    }
    let beyond = [(MIN_SECS - 1, 0), (MAX_SECS + 1, 0), (60, 1_000_000_000), (59, 2_000_000_000)];
    for (secs, nanos) in beyond {
        assert!(Timestamp::new(secs, nanos).is_none());
        assert!(chrono::DateTime::from_timestamp(secs, nanos).is_none());
    }
    assert_eq!(chrono::DateTime::<chrono::Utc>::MIN_UTC.timestamp(), MIN_SECS);
    assert_eq!(chrono::DateTime::<chrono::Utc>::MAX_UTC.timestamp(), MAX_SECS);
}

#[test]
fn seconds_are_added() {
    assert_eq!(at(100, 7).add_seconds(600), at(700, 7));
    assert_eq!(at(100, 7).add_seconds(-600), at(-500, 7));
    assert_eq!(at(100, 7).add_seconds(0), at(100, 7));
}

#[test]
fn adding_leaves_a_leap_second() {
    let leap = at(1_483_228_799, 1_500_000_000);
    assert_eq!(leap.add_seconds(1), at(1_483_228_800, 500_000_000));
    assert_eq!(leap.add_seconds(-1), at(1_483_228_799, 500_000_000));
    assert_eq!(leap.add_seconds(0), leap);
}

#[test]
fn sums_beyond_the_calendar_are_seen() {
    assert!(at(MAX_SECS - 600, 0).can_add_seconds(600));
    assert!(!at(MAX_SECS - 599, 0).can_add_seconds(600));
    assert!(at(MIN_SECS + 5, 0).can_add_seconds(-5));
    assert!(!at(MIN_SECS + 5, 0).can_add_seconds(-6));
    assert!(!at(0, 0).can_add_seconds(MAX_SPAN_SECS + 1));
    assert!(!at(0, 0).can_add_seconds(i64::MIN));
    assert_eq!(MAX_SPAN_SECS, i64::MAX / 1000);
}

#[test]
fn spans_are_rounded_towards_zero() {
    assert_eq!(at(10, 0).whole_seconds_since(&at(3, 0)), 7);
    assert_eq!(at(10, 0).whole_seconds_since(&at(3, 1)), 6);
    assert_eq!(at(3, 0).whole_seconds_since(&at(10, 0)), -7);
    assert_eq!(at(3, 1).whole_seconds_since(&at(10, 0)), -6);
    assert_eq!(at(3, 5).whole_seconds_since(&at(3, 5)), 0);
}

#[test]
fn spans_count_leap_seconds_of_the_same_day() {
    let leap = at(59, 1_000_000_000);
    assert_eq!(at(61, 0).whole_seconds_since(&leap), 2);
    assert_eq!(at(86_400, 0).whole_seconds_since(&leap), 86_340);
    assert_eq!(leap.whole_seconds_since(&at(61, 0)), -2);
    assert_eq!(leap.whole_seconds_since(&at(58, 0)), 2);
}

#[test]
fn points_are_ordered() {
    assert!(at(1, 0).is_before(&at(2, 0)));
    assert!(at(1, 0).is_before(&at(1, 1)));
    assert!(!at(1, 1).is_before(&at(1, 1)));
    assert!(!at(2, 0).is_before(&at(1, 999_999_999)));
}

#[test]
fn adding_and_measuring_agree() {
    for span in [-86_401, -1, 0, 1, 59, 86_400] {
        assert_eq!(at(1_000_000, 42).add_seconds(span).whole_seconds_since(&at(1_000_000, 42)), span);
    }
}
