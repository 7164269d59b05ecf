use laundry_monitor::time::{delay_elapsed, Duration, Instant};

#[test]
fn durations_convert_units() {
    assert_eq!(Duration::from_secs(30).as_micros(), 30_000_000);
    assert_eq!(Duration::from_millis(5).as_micros(), 5_000);
    assert_eq!(Duration::from_micros(2_500_000).as_secs(), 2);
    assert_eq!(Duration::from_micros(2_500_000).as_millis(), 2_500);
    assert_eq!(Duration::from_secs(10).as_secs(), 10);
}

#[test]
fn duration_since_counts_forward() {
    let a = Instant::from_micros(1_000);
    let b = Instant::from_micros(4_500);
    assert_eq!(b.duration_since(a), Duration::from_micros(3_500));
    assert_eq!(a.duration_since(a), Duration::from_micros(0));
}

#[test]
fn duration_since_wraps_around() {
    let late = Instant::from_micros(u64::MAX - 9);
    let early = Instant::from_micros(5);
    assert_eq!(early.duration_since(late), Duration::from_micros(15));
}

#[test]
fn delay_elapsed_after_duration() {
    let start = Instant::from_micros(100);
    let d = Duration::from_millis(5);
    assert!(!delay_elapsed(start, Instant::from_micros(100), d));
    assert!(!delay_elapsed(start, Instant::from_micros(5_099), d));
    assert!(delay_elapsed(start, Instant::from_micros(5_100), d));
}
