//! Delay and countdown-timer primitives.
//!
//! [`Delay`] is a stateless marker for blocking delays; the sleeping itself
//! suspends the calling thread and is supplied by the surrounding application
//! through the `embedded-hal` delay traits. [`Timer`] is a software countdown
//! timer: `start` arms it with a deadline relative to the monotonic clock, and
//! `wait` polls without blocking whether that deadline has passed. The unit
//! wrappers [`Millisecond`], [`Second`] and [`Microsecond`] normalize a
//! caller-supplied timeout to the timer's internal microsecond count.

use vstd::arithmetic::div_mod::lemma_small_mod;
use vstd::prelude::*;

verus! {

/// A duration expressed as a whole number of milliseconds.
pub struct Millisecond(pub u64);

/// A duration expressed as a whole number of microseconds, the timer's
/// canonical unit.
pub struct Microsecond(pub u64);

/// A duration expressed as a whole number of seconds.
pub struct Second(pub u64);

/// The number of microseconds in `ms` milliseconds, wrapping around at the
/// `u64` boundary exactly as the host multiplication does.
pub open spec fn millis_to_micros(ms: u64) -> u64 {
    ms.wrapping_mul(1000)
}

/// The number of microseconds in `s` seconds, wrapping around at the `u64`
/// boundary exactly as the host multiplication does.
pub open spec fn seconds_to_micros(s: u64) -> u64 {
    s.wrapping_mul(1_000_000)
}

/// Wherever the product is representable, converting milliseconds to
/// microseconds is exactly multiplication by 1000.
pub proof fn lemma_millis_to_micros_exact(ms: u64)
    requires
        ms * 1000 <= u64::MAX,
    ensures
        millis_to_micros(ms) == ms * 1000,
{
    lemma_small_mod((ms * 1000) as nat, 0x1_0000_0000_0000_0000);
}

/// Wherever the product is representable, converting seconds to microseconds
/// is exactly multiplication by 1,000,000.
pub proof fn lemma_seconds_to_micros_exact(s: u64)
    requires
        s * 1_000_000 <= u64::MAX,
    ensures
        seconds_to_micros(s) == s * 1_000_000,
{
    lemma_small_mod((s * 1_000_000) as nat, 0x1_0000_0000_0000_0000);
}

impl From<Millisecond> for Microsecond {
    fn from(item: Millisecond) -> (r: Microsecond) {
        Microsecond(item.0.wrapping_mul(1000))
    }
}

impl vstd::std_specs::convert::FromSpecImpl<Millisecond> for Microsecond {
    open spec fn obeys_from_spec() -> bool {
        true
    }

    open spec fn from_spec(v: Millisecond) -> Microsecond {
        Microsecond(millis_to_micros(v.0))
    }
}

impl From<Second> for Microsecond {
    fn from(item: Second) -> (r: Microsecond) {
        Microsecond(item.0.wrapping_mul(1_000_000))
    }
}

impl vstd::std_specs::convert::FromSpecImpl<Second> for Microsecond {
    open spec fn obeys_from_spec() -> bool {
        true
    }

    open spec fn from_spec(v: Second) -> Microsecond {
        Microsecond(seconds_to_micros(v.0))
    }
}

impl Microsecond {
    /// The raw number of microseconds.
    pub fn as_u64(&self) -> (r: u64)
        ensures
            r == self.0,
    {
        self.0
    }
}

/// A caller-facing time unit that a [`Timer`] timeout can be given in; it
/// normalizes to the timer's internal microsecond count.
pub trait TimeUnit: Sized {
    /// The microsecond count this duration stands for.
    spec fn micros(self) -> u64;

    /// Normalizes this duration to microseconds.
    fn to_micros(self) -> (r: Microsecond)
        ensures
            r.0 == self.micros(),
    ;
}

impl TimeUnit for Millisecond {
    open spec fn micros(self) -> u64 {
        millis_to_micros(self.0)
    }

    fn to_micros(self) -> (r: Microsecond) {
        Microsecond::from(self)
    }
}

impl TimeUnit for Second {
    open spec fn micros(self) -> u64 {
        seconds_to_micros(self.0)
    }

    fn to_micros(self) -> (r: Microsecond) {
        Microsecond::from(self)
    }
}

impl TimeUnit for Microsecond {
    open spec fn micros(self) -> u64 {
        self.0
    }

    fn to_micros(self) -> (r: Microsecond) {
        self
    }
}

#[verifier::external_type_specification]
#[verifier::external_body]
pub struct ExInstant(std::time::Instant);

/// Relies on `std::time::Instant::now`: a reading of the host's monotonic
/// clock. Nothing is promised of the value: it depends on the moment of the
/// call.
#[verifier::external_body]
fn monotonic_now() -> std::time::Instant {
    std::time::Instant::now()
}

/// Relies on `std::time::Instant::elapsed` (read out through
/// `Duration::as_micros`): the microseconds that have passed since `earlier`,
/// saturated at `u64::MAX`. Nothing is promised of the value: it depends on
/// the clock at the moment of the call.
#[verifier::external_body]
fn micros_since(earlier: &std::time::Instant) -> u64 {
    u64::try_from(earlier.elapsed().as_micros()).unwrap_or(u64::MAX)
}

/// A stateless handle for blocking delays. No field carries meaning across
/// calls; it is safe to recreate or share freely. The delay calls themselves
/// suspend the calling thread, so they live with the `embedded-hal`
/// `DelayMs`/`DelayUs` impls in the surrounding application, outside the
/// verified core.
#[derive(Debug)]
pub struct Delay {}

impl Delay {
    /// Constructs a new `Delay`.
    pub fn new() -> (d: Delay)
        ensures
            d == (Delay {  }),
    {
        Delay {  }
    }
}

impl Default for Delay {
    fn default() -> (d: Delay)
        ensures
            d == (Delay {  }),
    {
        Delay {  }
    }
}

/// The non-fatal outcome of polling a timer whose deadline has not passed:
/// the caller is expected to poll again later.
#[derive(Debug, Clone, Copy, PartialEq, Eq, Structural)]
pub enum WaitError {
    /// The deadline has not elapsed yet.
    WouldBlock,
}

/// Whether a timer armed with the threshold `duration_us` has elapsed once
/// `elapsed_us` microseconds have passed since it was armed.
pub open spec fn is_elapsed(duration_us: u64, elapsed_us: u64) -> bool {
    elapsed_us >= duration_us
}

/// A timer with a zero threshold reports elapsed at every poll, however
/// little time has passed; this is the state of a timer that was never
/// started.
pub proof fn lemma_zero_threshold_always_elapsed(elapsed_us: u64)
    ensures
        is_elapsed(0, elapsed_us),
{
}

/// A software countdown timer. `start` captures a monotonic timestamp and a
/// microsecond threshold; `wait` polls, without blocking, whether at least
/// that many microseconds have passed since the capture. Reporting elapsed
/// does not re-arm or reset the timer: every later poll keeps reporting
/// elapsed until `start` is called again.
#[derive(Debug, Clone, Copy)]
pub struct Timer {
    armed_at: std::time::Instant,
    duration_us: u64,
}

impl Timer {
    /// The armed threshold, in microseconds.
    pub closed spec fn duration_micros(&self) -> u64 {
        self.duration_us
    }

    /// Constructs an idle timer: the threshold is zero, so polling before
    /// any `start` reports elapsed at once.
    pub fn new() -> (t: Timer)
        ensures
            t.duration_micros() == 0,
    {
        Timer { armed_at: monotonic_now(), duration_us: 0 }
    }

    /// Arms the timer with the given timeout, measured from now. Any earlier
    /// deadline is discarded: the new threshold depends on `timeout` alone.
    pub fn start<T: TimeUnit>(&mut self, timeout: T)
        ensures
            final(self).duration_micros() == timeout.micros(),
    {
        let t = timeout.to_micros();
        self.duration_us = t.0;
        self.armed_at = monotonic_now();
    }

    /// Decides the poll outcome from a measured elapsed time: elapsed exactly
    /// when `elapsed_us` has reached the armed threshold.
    pub fn poll_at(&self, elapsed_us: u64) -> (r: Result<(), WaitError>)
        ensures
            r is Ok <==> is_elapsed(self.duration_micros(), elapsed_us),
            r is Err ==> r->Err_0 == WaitError::WouldBlock,
    {
        if elapsed_us >= self.duration_us {
            Ok(())
        } else {
            Err(WaitError::WouldBlock)
        }
    }

    /// Polls whether the armed deadline has passed, without blocking. The
    /// timer itself is left unchanged, so once it reports elapsed it keeps
    /// doing so until `start` re-arms it; with a zero threshold (a timer
    /// never started, or armed with a zero timeout) it reports elapsed
    /// whatever the clock returned.
    pub fn wait(&mut self) -> (r: Result<(), WaitError>)
        ensures
            *final(self) == *old(self),
            old(self).duration_micros() == 0 ==> r is Ok,
            r is Err ==> r->Err_0 == WaitError::WouldBlock,
    {
        let elapsed = micros_since(&self.armed_at);
        self.poll_at(elapsed)
    }
}

impl Default for Timer {
    fn default() -> (t: Timer)
        ensures
            t.duration_micros() == 0,
    {
        Timer::new()
    }
}

} // verus!
