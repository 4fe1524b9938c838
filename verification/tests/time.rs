use mproc::duration::Duration;
use mproc::filetime::FileTime;
use mproc::filetime::filetime_elapsed;
use mproc::filetime::filetime_to_u64;
use mproc::filetime::u64_to_duration;
use mproc::measurement::Measurement;

#[test]
fn filetime_halves_join() {
    assert_eq!(filetime_to_u64(FileTime { low: 0, high: 0 }), 0);
    assert_eq!(filetime_to_u64(FileTime { low: 1, high: 0 }), 1);
    assert_eq!(filetime_to_u64(FileTime { low: 0, high: 1 }), 1 << 32);
    assert_eq!(
        filetime_to_u64(FileTime { low: 0xdead_beef, high: 0x1234_5678 }),
        0x1234_5678_dead_beef,
    );
}

#[test]
fn ticks_to_duration() {
    assert_eq!(u64_to_duration(0), Duration { secs: 0, nanos: 0 });
    assert_eq!(u64_to_duration(1), Duration { secs: 0, nanos: 100 });
    assert_eq!(u64_to_duration(10_000_000), Duration { secs: 1, nanos: 0 });
    assert_eq!(u64_to_duration(123_456_789), Duration { secs: 12, nanos: 345_678_900 });
}

#[test]
fn elapsed_between_filetimes() {
    let start = FileTime { low: 100, high: 0 };
    let end = FileTime { low: 10_000_100, high: 0 };
    assert_eq!(filetime_elapsed(start, end), Duration { secs: 1, nanos: 0 });
}

#[test]
fn duration_ordering_and_extremes() {
    let a = Duration { secs: 1, nanos: 999_999_999 };
    let b = Duration { secs: 2, nanos: 0 };
    assert!(a.le(&b));
    assert!(!b.le(&a));
    assert_eq!(a.min_of(b), a);
    assert_eq!(a.max_of(b), b);
    assert_eq!(a.min_of(a), a);
}

#[test]
fn duration_addition_carries_and_saturates() {
    let a = Duration { secs: 1, nanos: 600_000_000 };
    let b = Duration { secs: 2, nanos: 700_000_000 };
    assert_eq!(a.saturating_add(b), Duration { secs: 4, nanos: 300_000_000 });
    let top = Duration { secs: u64::MAX, nanos: 999_999_999 };
    assert_eq!(top.saturating_add(b), top);
}

#[test]
fn precise_time_wins_over_fallback() {
    let m = Measurement::from_parts(
        Some(Duration { secs: 1, nanos: 0 }),
        Duration { secs: 9, nanos: 0 },
        Ok(1),
        Some(0),
    );
    assert_eq!(m.time, Duration { secs: 1, nanos: 0 });
    assert_eq!(m.memory, Ok(1));
    assert_eq!(m.exit_code, Some(0));
}

#[test]
fn fallback_time_fills_in() {
    let m = Measurement::from_parts(None, Duration { secs: 9, nanos: 5 }, Ok(1), None);
    assert_eq!(m.time, Duration { secs: 9, nanos: 5 });
    assert_eq!(m.exit_code, None);
}
