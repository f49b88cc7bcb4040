//! The monotonic time source that the host supplies, and deadlines over it.

use vstd::prelude::*;

verus! {

/// A monotonic clock with microsecond granularity. Nothing is assumed about
/// the values it returns; the deadline logic holds for every reading.
pub trait SimpleClock {
    /// The current reading, in microseconds.
    fn now_us(&self) -> u64;
}

/// Microseconds elapsed between two clock readings; a reading that appears
/// to have gone backwards counts as no time elapsed.
pub open spec fn elapsed_us(start: u64, now: u64) -> int {
    if now >= start {
        now - start
    } else {
        0
    }
}

/// An absolute point in time: a start reading plus a duration. A waiting
/// operation must fail with a timeout once the deadline is reached.
pub struct Deadline {
    start: u64,
    duration: u64,
}

impl Deadline {
    /// The clock reading the deadline was armed at.
    pub closed spec fn spec_start(&self) -> u64 {
        self.start
    }

    /// The duration after which the deadline is reached.
    pub closed spec fn spec_duration(&self) -> u64 {
        self.duration
    }

    /// Arms a deadline `duration` microseconds after the reading `start`.
    pub fn new(start: u64, duration: u64) -> (r: Deadline)
        ensures
            r.spec_start() == start,
            r.spec_duration() == duration,
    {
        Deadline { start, duration }
    }

    /// Whether the deadline is reached at the reading `now`.
    pub fn reached(&self, now: u64) -> (r: bool)
        ensures
            r == (elapsed_us(self.spec_start(), now) >= self.spec_duration()),
    {
        let elapsed = if now >= self.start {
            now - self.start
        } else {
            0
        };
        elapsed >= self.duration
    }
}

} // verus!
