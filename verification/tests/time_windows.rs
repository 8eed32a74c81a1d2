use wasd::time::{TimeOfDay, Timestamp};

fn ts(hour: u8, minute: u8) -> Timestamp {
    Timestamp { hour, minute }
}

fn at(hour: u8, minute: u8, second: u8) -> TimeOfDay {
    TimeOfDay::from_hms(hour, minute, second)
}

#[test]
fn from_hms_counts_seconds() {
    assert_eq!(at(0, 0, 0).seconds, 0);
    assert_eq!(at(23, 59, 59).seconds, 86399);
    assert_eq!(at(10, 0, 0).seconds, 36000);
}

#[test]
fn non_wrapping_window_is_start_inclusive_end_exclusive() {
    let start = ts(9, 30);
    let end = ts(10, 0);
    assert!(Timestamp::between(&start, &end, &at(9, 30, 0)));
    assert!(Timestamp::between(&start, &end, &at(9, 45, 12)));
    assert!(Timestamp::between(&start, &end, &at(9, 59, 59)));
    assert!(!Timestamp::between(&start, &end, &at(10, 0, 0)));
    assert!(!Timestamp::between(&start, &end, &at(9, 29, 59)));
    assert!(!Timestamp::between(&start, &end, &at(0, 0, 0)));
    assert!(!Timestamp::between(&start, &end, &at(23, 59, 59)));
}

#[test]
fn degenerate_window_is_always_empty() {
    let b = ts(12, 0);
    assert!(!Timestamp::between(&b, &b, &at(12, 0, 0)));
    assert!(!Timestamp::between(&b, &b, &at(11, 59, 59)));
    assert!(!Timestamp::between(&b, &b, &at(0, 0, 0)));
}

#[test]
fn wrapping_window_crosses_midnight() {
    let start = ts(22, 0);
    let end = ts(6, 0);
    assert!(Timestamp::between(&start, &end, &at(23, 30, 0)));
    assert!(Timestamp::between(&start, &end, &at(3, 0, 0)));
    assert!(Timestamp::between(&start, &end, &at(0, 0, 0)));
    assert!(!Timestamp::between(&start, &end, &at(10, 0, 0)));
    assert!(!Timestamp::between(&start, &end, &at(21, 59, 59)));
    // Boundary policy of the complement formula: true at the window's start,
    // false at its end.
    assert!(Timestamp::between(&start, &end, &at(22, 0, 0)));
    assert!(!Timestamp::between(&start, &end, &at(6, 0, 0)));
}

#[test]
fn wrapping_window_negates_the_gap_read_as_a_normal_window() {
    let start = ts(22, 0);
    let end = ts(6, 0);
    for seconds in [0u32, 21599, 21600, 36000, 79199, 79200, 84600, 86399] {
        let now = TimeOfDay { seconds };
        let wrapped = Timestamp::between(&start, &end, &now);
        let gap = Timestamp::between(&end, &start, &now);
        assert_eq!(wrapped, !gap);
    }
}
