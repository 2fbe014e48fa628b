use rppal::hal::{Delay, Microsecond, Millisecond, Second, TimeUnit, Timer, WaitError};
use std::time::{Duration, Instant};

/// Busy-waits until at least `d` has passed on the monotonic clock.
fn spin_for(d: Duration) {
    let begin = Instant::now();
    while begin.elapsed() < d {}
}

#[test]
fn millisecond_converts_to_thousand_micros() {
    assert_eq!(Microsecond::from(Millisecond(5)).as_u64(), 5_000);
    assert_eq!(Microsecond::from(Millisecond(0)).as_u64(), 0);
    assert_eq!(Microsecond::from(Millisecond(1)).as_u64(), 1_000);
}

#[test]
fn second_converts_to_million_micros() {
    assert_eq!(Microsecond::from(Second(3)).as_u64(), 3_000_000);
    assert_eq!(Microsecond::from(Second(0)).as_u64(), 0);
}

#[test]
fn microsecond_normalizes_to_itself() {
    assert_eq!(Microsecond(42).to_micros().as_u64(), 42);
    assert_eq!(Millisecond(7).to_micros().as_u64(), 7_000);
    assert_eq!(Second(2).to_micros().as_u64(), 2_000_000);
}

#[test]
fn conversion_wraps_at_the_u64_boundary() {
    assert_eq!(
        Microsecond::from(Millisecond(u64::MAX)).as_u64(),
        u64::MAX.wrapping_mul(1_000)
    );
    assert_eq!(
        Microsecond::from(Second(u64::MAX)).as_u64(),
        u64::MAX.wrapping_mul(1_000_000)
    );
}

#[test]
fn into_microsecond_through_std_conversion() {
    let us: Microsecond = Millisecond(7).into();
    assert_eq!(us.as_u64(), 7_000);
    let us: Microsecond = Second(1).into();
    assert_eq!(us.as_u64(), 1_000_000);
}

#[test]
fn fresh_timer_reports_elapsed() {
    let mut t = Timer::new();
    assert_eq!(t.wait(), Ok(()));
    assert_eq!(t.wait(), Ok(()));
}

#[test]
fn default_timer_reports_elapsed() {
    let mut t = Timer::default();
    assert_eq!(t.wait(), Ok(()));
}

#[test]
fn zero_timeout_is_instantly_satisfied() {
    let mut t = Timer::new();
    t.start(Microsecond(0));
    assert_eq!(t.wait(), Ok(()));
}

#[test]
fn armed_timer_blocks_then_elapses() {
    let mut t = Timer::new();
    t.start(Millisecond(50));
    assert_eq!(t.wait(), Err(WaitError::WouldBlock));
    spin_for(Duration::from_millis(60));
    assert_eq!(t.wait(), Ok(()));
    // Reporting elapsed does not re-arm the timer: it stays ready.
    assert_eq!(t.wait(), Ok(()));
}

#[test]
fn restart_discards_previous_deadline() {
    let mut t = Timer::new();
    t.start(Second(10));
    t.start(Millisecond(5));
    spin_for(Duration::from_millis(10));
    assert_eq!(t.wait(), Ok(()));
}

#[test]
fn poll_at_compares_against_threshold() {
    let mut t = Timer::new();
    t.start(Millisecond(1));
    assert_eq!(t.poll_at(999), Err(WaitError::WouldBlock));
    assert_eq!(t.poll_at(1_000), Ok(()));
    assert_eq!(t.poll_at(u64::MAX), Ok(()));
    assert_eq!(Timer::new().poll_at(0), Ok(()));
}

#[test]
fn delay_handle_constructs() {
    let _unused = Delay::new();
    let _other = Delay::default();
}
