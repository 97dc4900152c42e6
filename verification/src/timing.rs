//! Storing time.

use vstd::prelude::*;

verus! {

/// Broken-down local wall-clock time.
#[derive(Clone, Copy, Debug)]
pub struct LocalClock {
    pub year_day: u32,
    pub hour: u32,
    pub minute: u32,
    pub second: u32,
    pub nanosecond: u32,
}

/// Reads the local wall clock with `time::now` and returns the fields of the `Tm` it gives back.
/// The `time` crate documents these fields as lying in `[0, 365]`, `[0, 23]`, `[0, 59]`,
/// `[0, 60]` and `[0, 10^9 - 1]`; nothing else is claimed of the clock.
#[verifier::external_body]
pub fn local_clock() -> (result: LocalClock)
    ensures
        result.year_day <= 365,
        result.hour <= 23,
        result.minute <= 59,
        result.second <= 60,
        result.nanosecond < 1_000_000_000,
{
    let now = time::now();
    LocalClock {
        year_day: now.tm_yday as u32,
        hour: now.tm_hour as u32,
        minute: now.tm_min as u32,
        second: now.tm_sec as u32,
        nanosecond: now.tm_nsec as u32,
    }
}

/// This structure represents amount of time in milliseconds.
#[derive(Clone, Copy, Debug, PartialEq, Eq, Structural)]
pub struct Milliseconds {
    milliseconds: u64,
}

impl Milliseconds {
    /// Number of milliseconds held.
    pub closed spec fn spec_value(self) -> u64 {
        self.milliseconds
    }

    /// Returns the milliseconds elapsed within the current minute of the wall clock.
    pub fn now() -> (result: Self)
        ensures
            result.spec_value() < 61000,
    {
        let clock = local_clock();
        Self::from_clock(clock.second, clock.nanosecond)
    }

    /// Computes milliseconds from a second within a minute and a nanosecond within the second.
    pub fn from_clock(second: u32, nanosecond: u32) -> (result: Self)
        requires
            second <= 60,
            nanosecond < 1_000_000_000,
        ensures
            result.spec_value() == second * 1000 + nanosecond / 1_000_000,
            result.spec_value() < 61000,
    {
        Milliseconds { milliseconds: second as u64 * 1000 + nanosecond as u64 / 1000000 }
    }

    /// Returns the number of milliseconds.
    pub fn get_value(&self) -> (result: u64)
        ensures
            result == self.spec_value(),
    {
        self.milliseconds
    }
}

} // verus!
