//! The delay and sound timers: two bytes that count down to zero, one step
//! per tick of a 60 Hz clock, whatever the instruction rate is.

use vstd::prelude::*;

verus! {

/// A timer value one tick later: one less, and zero stays zero.
pub open spec fn ticked(value: u8) -> u8 {
    if value > 0 {
        (value - 1) as u8
    } else {
        0
    }
}

/// A timer value `ticks` ticks later.
pub open spec fn ticked_times(value: u8, ticks: nat) -> u8
    decreases ticks,
{
    if ticks == 0 {
        value
    } else {
        ticked(ticked_times(value, (ticks - 1) as nat))
    }
}

/// After `ticks` ticks a timer has lost `ticks`, and never goes below zero.
pub proof fn lemma_ticks_saturate(value: u8, ticks: nat)
    ensures
        ticked_times(value, ticks) == if ticks <= value {
            value - ticks
        } else {
            0
        },
    decreases ticks,
{
    if ticks > 0 {
        lemma_ticks_saturate(value, (ticks - 1) as nat);
    }
}

/// The delay timer and the sound timer.
#[derive(Clone, Copy, Debug, PartialEq, Eq, Structural)]
pub struct TimerPair {
    pub delay: u8,
    pub sound: u8,
}

impl TimerPair {
    /// Both timers at zero.
    pub fn new() -> (timers: TimerPair)
        ensures
            timers.delay == 0,
            timers.sound == 0,
    {
        TimerPair { delay: 0, sound: 0 }
    }

    /// One tick of the 60 Hz clock: each timer above zero loses one.
    pub fn tick(&mut self)
        ensures
            final(self).delay == ticked(old(self).delay),
            final(self).sound == ticked(old(self).sound),
    {
        if self.delay > 0 {
            self.delay -= 1;
        }
        if self.sound > 0 {
            self.sound -= 1;
        }
    }

    /// Whether the sound timer is running, which is when a beep is due.
    pub fn sound_active(&self) -> (active: bool)
        ensures
            active == (self.sound > 0),
    {
        self.sound > 0
    }
}

} // verus!
