//! The two cadences of the host loop, as decisions on elapsed time.
//!
//! The timers tick at 60 Hz by the clock, not by counting instructions, so
//! that they keep their rate under any instruction rate; and each
//! instruction is padded with sleep to its target duration. The host loop
//! measures the time and acts; what to do is decided here. Times are in
//! nanoseconds.

use vstd::prelude::*;

verus! {

/// Nanoseconds in a second.
pub const NANOS_PER_SECOND: u64 = 1_000_000_000;

/// Rate of the timer clock, in ticks per second.
pub const TIMER_HZ: u64 = 60;

/// Time between two ticks of the timer clock: a sixtieth of a second.
pub const TIMER_PERIOD_NANOS: u64 = NANOS_PER_SECOND / TIMER_HZ;

/// How long the host loop still has to sleep after an instruction that took
/// `elapsed_nanos`, for the cycle to last `cycle_nanos`.
pub open spec fn remainder_of_cycle(cycle_nanos: u64, elapsed_nanos: u64) -> u64 {
    if elapsed_nanos < cycle_nanos {
        (cycle_nanos - elapsed_nanos) as u64
    } else {
        0
    }
}

/// Whether a timer tick is due, `elapsed_nanos` after the previous one: as
/// soon as a sixtieth of a second has passed.
pub fn timer_tick_due(elapsed_nanos: u64) -> (due: bool)
    ensures
        due == (elapsed_nanos >= TIMER_PERIOD_NANOS),
{
    elapsed_nanos >= TIMER_PERIOD_NANOS
}

/// The time to sleep after an instruction that took `elapsed_nanos`, so that
/// the cycle lasts `cycle_nanos`; nothing if it already took longer.
pub fn sleep_remainder(cycle_nanos: u64, elapsed_nanos: u64) -> (rest: u64)
    ensures
        rest == remainder_of_cycle(cycle_nanos, elapsed_nanos),
{
    if elapsed_nanos < cycle_nanos {
        cycle_nanos - elapsed_nanos
    } else {
        0
    }
}

/// With the sleep added, a cycle lasts its target duration, and exactly that
/// unless the instruction alone took longer.
pub proof fn lemma_cycle_meets_target(cycle_nanos: u64, elapsed_nanos: u64)
    ensures
        elapsed_nanos + remainder_of_cycle(cycle_nanos, elapsed_nanos) >= cycle_nanos,
        elapsed_nanos <= cycle_nanos ==> elapsed_nanos + remainder_of_cycle(
            cycle_nanos,
            elapsed_nanos,
        ) == cycle_nanos,
{
}

} // verus!
