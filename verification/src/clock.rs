//! The monotonic clock, in ticks of the global timebase. A tick is a microsecond.

use embassy_time::{Duration, Instant};
use vstd::prelude::*;

verus! {

/// How many ticks of the clock make up a millisecond.
pub const TICKS_PER_MS: u64 = 1_000;

/// A tick count that the clock gave. There is no other way to come by one: the
/// field is private, and only [`now_ticks`] builds it.
#[derive(Debug)]
pub struct Reading {
    ticks: u64,
}

impl View for Reading {
    type V = u64;

    closed spec fn view(&self) -> u64 {
        self.ticks
    }
}

impl Reading {
    /// The tick count.
    pub fn ticks(&self) -> (ticks: u64)
        ensures
            ticks == self@,
    {
        self.ticks
    }
}

/// A reading is worth the tick count that the clock gave.
proof fn lemma_worth_is_tick_count(reading: Reading)
    ensures
        reading@ == reading.ticks,
{
}

/// Nothing of a reading is lost: two readings of the same worth are the same.
pub proof fn law_readings_are_told_apart(first: Reading, second: Reading)
    requires
        first@ == second@,
    ensures
        first == second,
{
    lemma_worth_is_tick_count(first);
    lemma_worth_is_tick_count(second);
}

/// Calls `Instant::now` and gives its tick count since boot. What comes back is
/// up to the time driver, so nothing is claimed of it: neither an upper bound
/// nor how it compares with an earlier reading.
#[verifier::external_body]
pub(crate) fn now_ticks() -> (reading: Reading) {
    Reading { ticks: Instant::now().as_ticks() }
}

/// Calls `Duration::from_millis` and gives the tick count of the duration. The
/// timebase runs at one million ticks a second, so a millisecond is a whole
/// number of ticks and the count is exact.
#[verifier::external_body]
pub(crate) fn millis_to_ticks(millis: u64) -> (ticks: u64)
    requires
        millis * TICKS_PER_MS <= u64::MAX,
    ensures
        ticks == millis * TICKS_PER_MS,
{
    Duration::from_millis(millis).as_ticks()
}

} // verus!
