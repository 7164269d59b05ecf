//! Time as the system timer counts it: microseconds since boot.
use vstd::prelude::*;

verus! {

/// Microseconds in one second.
pub const MICROS_PER_SEC: u64 = 1_000_000;

/// Microseconds in one millisecond.
pub const MICROS_PER_MILLI: u64 = 1_000;

/// The microseconds from `earlier` to `later` on a 64-bit counter that wraps
/// around, as subtracting two instants of the timer gives them.
pub open spec fn elapsed_micros(earlier: u64, later: u64) -> u64 {
    if later >= earlier {
        (later - earlier) as u64
    } else {
        (later + 0x1_0000_0000_0000_0000 - earlier) as u64
    }
}

/// The elapsed time is what must be added to `earlier`, on the 64-bit
/// counter, to reach `later`; it is zero from an instant to itself and the
/// plain difference when the counter did not wrap.
pub proof fn law_elapsed_is_counter_difference(earlier: u64, later: u64)
    ensures
        (earlier + elapsed_micros(earlier, later)) % 0x1_0000_0000_0000_0000 == later,
        elapsed_micros(earlier, earlier) == 0,
        later >= earlier ==> elapsed_micros(earlier, later) == later - earlier,
{
}

/// A point in time, counted in microseconds since boot.
#[derive(Clone, Copy, Debug, PartialEq, Eq, Structural)]
pub struct Instant {
    pub micros: u64,
}

/// A span of time in microseconds.
#[derive(Clone, Copy, Debug, PartialEq, Eq, Structural)]
pub struct Duration {
    pub micros: u64,
}

impl Instant {
    /// The instant `micros` microseconds after boot.
    pub fn from_micros(micros: u64) -> (i: Instant)
        ensures
            i.micros == micros,
    {
        Instant { micros }
    }

    /// The time from `earlier` to `self`; the counter's wrap-around is taken
    /// into account instead of failing when `earlier` is the later one.
    pub fn duration_since(&self, earlier: Instant) -> (d: Duration)
        ensures
            d.micros == elapsed_micros(earlier.micros, self.micros),
    {
        if self.micros >= earlier.micros {
            Duration { micros: self.micros - earlier.micros }
        } else {
            Duration { micros: (u64::MAX - earlier.micros) + self.micros + 1 }
        }
    }
}

impl Duration {
    /// A duration of `micros` microseconds.
    pub fn from_micros(micros: u64) -> (d: Duration)
        ensures
            d.micros == micros,
    {
        Duration { micros }
    }

    /// A duration of `millis` milliseconds.
    pub fn from_millis(millis: u64) -> (d: Duration)
        requires
            millis * MICROS_PER_MILLI <= u64::MAX,
        ensures
            d.micros == millis * MICROS_PER_MILLI,
    {
        Duration { micros: millis * MICROS_PER_MILLI }
    }

    /// A duration of `secs` seconds.
    pub fn from_secs(secs: u64) -> (d: Duration)
        requires
            secs * MICROS_PER_SEC <= u64::MAX,
        ensures
            d.micros == secs * MICROS_PER_SEC,
    {
        Duration { micros: secs * MICROS_PER_SEC }
    }

    /// The whole number of microseconds.
    pub fn as_micros(&self) -> (m: u64)
        ensures
            m == self.micros,
    {
        self.micros
    }

    /// The whole number of milliseconds, rounded down.
    pub fn as_millis(&self) -> (m: u64)
        ensures
            m == self.micros / MICROS_PER_MILLI,
    {
        self.micros / MICROS_PER_MILLI
    }

    /// The whole number of seconds, rounded down.
    pub fn as_secs(&self) -> (s: u64)
        ensures
            s == self.micros / MICROS_PER_SEC,
    {
        self.micros / MICROS_PER_SEC
    }
}

/// The decision of a busy-wait delay begun at `start`: whether `duration`
/// has passed by `now`.
pub fn delay_elapsed(start: Instant, now: Instant, duration: Duration) -> (done: bool)
    ensures
        done == (elapsed_micros(start.micros, now.micros) >= duration.micros),
{
    now.duration_since(start).as_micros() >= duration.as_micros()
}

} // verus!
