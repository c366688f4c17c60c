//! The simulation clock: a timestamp that never runs backwards and the time
//! elapsed since the tick before.
//!
//! Time is counted in whole nanoseconds on a timeline of the caller's
//! choosing.

use vstd::prelude::*;

verus! {

/// The number of nanoseconds in a second.
pub const NANOS_PER_SECOND: u64 = 1_000_000_000;

/// The time from `last` to `now`, and nothing where `now` lies before `last`.
pub open spec fn elapsed_between(last: u64, now: u64) -> u64 {
    if now >= last {
        (now - last) as u64
    } else {
        0
    }
}

/// The later of two timestamps.
pub open spec fn later_of(last: u64, now: u64) -> u64 {
    if now >= last {
        now
    } else {
        last
    }
}

/// Remembers when the previous tick was.
#[derive(Debug)]
pub struct SimClock {
    last: u64,
}

impl SimClock {
    /// The timestamp of the previous tick.
    pub closed spec fn last(&self) -> u64 {
        self.last
    }

    /// A clock whose previous tick is `now`.
    pub fn start(now: u64) -> (clock: Self)
        ensures
            clock.last() == now,
    {
        SimClock { last: now }
    }

    /// Marks a tick at `now` and gives the time elapsed since the previous
    /// one. A timestamp before the previous one counts as no time at all
    /// and does not move the clock.
    pub fn tick(&mut self, now: u64) -> (elapsed: u64)
        ensures
            elapsed == elapsed_between(old(self).last(), now),
            final(self).last() == later_of(old(self).last(), now),
    {
        if now >= self.last {
            let elapsed = now - self.last;
            self.last = now;
            elapsed
        } else {
            0
        }
    }

    /// The timestamp of the previous tick.
    pub fn previous(&self) -> (t: u64)
        ensures
            t == self.last(),
    {
        self.last
    }
}

/// Splits a time in nanoseconds into whole seconds and the nanoseconds
/// beyond them.
pub fn split_seconds(nanos: u64) -> (parts: (u64, u32))
    ensures
        parts.0 * NANOS_PER_SECOND + parts.1 == nanos,
        parts.1 < NANOS_PER_SECOND,
{
    let seconds = nanos / NANOS_PER_SECOND;
    let beyond = nanos % NANOS_PER_SECOND;
    (seconds, beyond as u32)
}

/// Over any two ticks in a row the elapsed times add up to the time from
/// the first timestamp to the last, as long as the timestamps do not run
/// backwards.
pub proof fn lemma_elapsed_adds_up(start: u64, first: u64, second: u64)
    requires
        start <= first <= second,
    ensures
        elapsed_between(start, first) + elapsed_between(later_of(start, first), second)
            == second - start,
{
}

} // verus!
