use chess_session::utils::{current_time, timestamp};

#[test]
fn timestamp_counts_milliseconds() {
    assert_eq!(timestamp(0, 0), 0);
    assert_eq!(timestamp(1, 999), 1999);
    assert_eq!(timestamp(1_700_000_000, 123), 1_700_000_000_123);
}

#[test]
fn timestamp_stops_at_the_largest_count() {
    assert_eq!(timestamp(u64::MAX / 1000, 615), u64::MAX);
    assert_eq!(timestamp(u64::MAX / 1000, 614), u64::MAX - 1);
    assert_eq!(timestamp(u64::MAX / 1000, 999), u64::MAX);
    assert_eq!(timestamp(u64::MAX / 1000 + 1, 0), u64::MAX);
    assert_eq!(timestamp(u64::MAX, 0), u64::MAX);
}

#[test]
fn current_time_reads_the_clock_in_milliseconds() {
    let first = current_time();
    // 2020-01-01 and 2200-01-01, in milliseconds since the epoch.
    assert!(first > 1_577_836_800_000);
    assert!(first < 7_258_118_400_000);
    let second = current_time();
    assert!(second + 60_000 > first);
}
