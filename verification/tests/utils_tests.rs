use std::sync::atomic::AtomicUsize;
use std::sync::Arc;
use twitch_bot::utils::{
    decr_atomic, decremented, incr_atomic, incremented, now_utc_iso8601, now_utc_ms, read_atomic,
    set_atomic, utc_millis,
};

#[test]
fn atomic_counter_moves_by_one() {
    let c = Arc::new(AtomicUsize::new(5));
    assert_eq!(incr_atomic(&c), 6);
    assert_eq!(read_atomic(&c), 6);
    assert_eq!(decr_atomic(&c), 5);
    assert_eq!(decr_atomic(&c), 4);
    assert_eq!(read_atomic(&c), 4);
    assert_eq!(set_atomic(&c, 9), 4);
    assert_eq!(read_atomic(&c), 9);
}

#[test]
fn decrement_of_zero_reports_zero() {
    let c = Arc::new(AtomicUsize::new(0));
    assert_eq!(decr_atomic(&c), 0);
}

#[test]
fn increment_wraps() {
    let c = Arc::new(AtomicUsize::new(usize::MAX));
    assert_eq!(incr_atomic(&c), 0);
    assert_eq!(incremented(usize::MAX), 0);
}

#[test]
fn decrement_undoes_increment() {
    for x in [0usize, 1, 7, usize::MAX - 1] {
        assert_eq!(decremented(incremented(x)), x);
    }
    assert_eq!(decremented(incremented(usize::MAX)), 0);
    assert_eq!(incremented(decremented(3)), 3);
    assert_eq!(decremented(0), 0);
}

#[test]
fn millis_combine_seconds_and_fraction() {
    assert_eq!(utc_millis(1_500_000_000, 123), 1_500_000_000_123);
    assert_eq!(utc_millis(-1, 999), -1);
}

#[test]
fn clock_reads_are_plausible() {
    let ms = now_utc_ms();
    assert!(ms > 1_500_000_000_000);
    let text = now_utc_iso8601();
    assert!(text.ends_with('Z'));
    assert!(text.contains('T'));
    assert!(text.len() <= 33);
    assert!(text.len() >= 20);
}
