//! Conversions on readings of the hart's cycle counter.

use vstd::prelude::*;
use crate::config::CLOCK_FREQ;

verus! {

/// Timer interrupts per second.
pub const TICKS_PER_SEC: usize = 100;

/// Microseconds per second.
pub const MICRO_PER_SEC: usize = 1_000_000;

/// Counter cycles between two timer interrupts.
pub open spec fn tick_cycles() -> int {
    CLOCK_FREQ as int / TICKS_PER_SEC as int
}

/// The counter reading `time` in microseconds.
pub open spec fn time_us(time: usize) -> usize {
    (time as int / (CLOCK_FREQ as int / MICRO_PER_SEC as int)) as usize
}

/// Converts the counter reading `time` to microseconds.
pub fn get_time_us(time: usize) -> (us: usize)
    ensures
        us == time_us(time),
        us == time / 12,
{
    time / (CLOCK_FREQ / MICRO_PER_SEC)
}

/// The counter value at which the next timer interrupt is due, one tick
/// after the reading `time`.
pub fn set_next_trigger(time: usize) -> (target: usize)
    requires
        time + tick_cycles() <= usize::MAX,
    ensures
        target == time + tick_cycles(),
        target == time + 125_000,
{
    time + CLOCK_FREQ / TICKS_PER_SEC
}

/// A later counter reading is no earlier in microseconds.
pub proof fn lemma_time_us_monotonic(earlier: usize, later: usize)
    requires
        earlier <= later,
    ensures
        time_us(earlier) <= time_us(later),
{
    assert(time_us(earlier) == earlier / 12);
    assert(time_us(later) == later / 12);
}

/// Readings one tick or more apart differ in microseconds.
pub proof fn lemma_time_us_advances(earlier: usize, later: usize)
    requires
        earlier + tick_cycles() <= later,
    ensures
        time_us(earlier) < time_us(later),
{
    assert(time_us(earlier) == earlier / 12);
    assert(time_us(later) == later / 12);
}

} // verus!
