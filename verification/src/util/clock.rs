//! A monotonic millisecond clock.

use std::time::Duration;
use std::time::Instant;
use vstd::prelude::*;

verus! {

/// Milliseconds in one second.
pub const MILLIS_PER_SECOND: u64 = 1000;

/// `std::time::Instant`, carried through as an opaque value.
#[verifier::external_type_specification]
#[verifier::external_body]
pub struct ExInstant(Instant);

/// `std::time::Instant::now` reads the operating system's monotonic clock.
/// Taken on trust: that the call returns. Nothing is claimed of the value.
pub assume_specification[ Instant::now ]() -> Instant;

/// `std::time::Instant::elapsed` measures the time since the instant was
/// taken. Taken on trust: that the call returns. Nothing is claimed of the
/// value.
pub assume_specification[ Instant::elapsed ](instant: &Instant) -> Duration;

/// `std::time::Duration::as_millis` gives the whole milliseconds in a
/// duration. Taken on trust: that the call returns. Nothing is claimed of the
/// value.
pub assume_specification[ Duration::as_millis ](duration: &Duration) -> u128;

/// Milliseconds that have passed between `earlier` and `now`; zero when `now`
/// lies before `earlier`.
pub open spec fn spec_millis_since(earlier: u64, now: u64) -> nat {
    if now >= earlier {
        (now - earlier) as nat
    } else {
        0
    }
}

/// Computes [`spec_millis_since`].
pub fn millis_since(earlier: u64, now: u64) -> (r: u64)
    ensures
        r == spec_millis_since(earlier, now),
{
    if now >= earlier {
        now - earlier
    } else {
        0
    }
}

/// A source of timestamps for the polls: milliseconds since the clock was
/// started, never decreasing from one reading to the next.
#[derive(Debug)]
pub struct Clock {
    origin: Instant,
    last: u64,
}

impl Clock {
    /// The latest reading handed out, zero before the first.
    pub closed spec fn last_reading(&self) -> u64 {
        self.last
    }

    /// Starts a clock at the present moment.
    pub fn start() -> (clock: Clock)
        ensures
            clock.last_reading() == 0,
    {
        Clock { origin: Instant::now(), last: 0 }
    }

    /// Reads the clock. The reading is at least the previous one, whatever the
    /// operating system reports, and stops at `u64::MAX`.
    pub fn now(&mut self) -> (t: u64)
        ensures
            t >= old(self).last_reading(),
            final(self).last_reading() == t,
    {
        let millis: u128 = self.origin.elapsed().as_millis();
        self.record(saturate(millis))
    }

    /// Takes in a raw reading and hands out the timestamp for it: the raw
    /// reading, or the previous timestamp where the raw reading fell behind it.
    pub fn record(&mut self, reading: u64) -> (t: u64)
        ensures
            t == if reading > old(self).last_reading() {
                reading
            } else {
                old(self).last_reading()
            },
            final(self).last_reading() == t,
    {
        if reading > self.last {
            self.last = reading;
        }
        self.last
    }
}

/// The value of `millis` where it fits in 64 bits, `u64::MAX` above that.
pub open spec fn spec_saturate(millis: u128) -> u64 {
    if millis > u64::MAX {
        u64::MAX
    } else {
        millis as u64
    }
}

/// Computes [`spec_saturate`].
pub fn saturate(millis: u128) -> (r: u64)
    ensures
        r == spec_saturate(millis),
{
    if millis > u64::MAX as u128 {
        u64::MAX
    } else {
        millis as u64
    }
}

} // verus!
