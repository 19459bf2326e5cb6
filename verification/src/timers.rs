use vstd::prelude::*;
use crate::emulator::Emulator;
use crate::machine::NANOS_PER_TIMER_TICK;
use crate::semantics::{counted_down, tick_spec};

verus! {

/// A timer after `fires` intervals: it counts down to zero and stays there.
fn count_down(timer: u8, fires: u128) -> (left: u8)
    ensures
        left == counted_down(timer, fires as int),
{
    if fires >= timer as u128 {
        0
    } else {
        timer - fires as u8
    }
}

impl Emulator {
    /// Lets `elapsed_nanos` nanoseconds of wall-clock time pass for the
    /// timers.
    ///
    /// The time is added to the time that is pending since the timers last
    /// counted down. For every whole interval of `NANOS_PER_TIMER_TICK`
    /// nanoseconds in the sum, the delay timer and the sound timer count
    /// down by one, stopping at zero; what is left of an interval stays
    /// pending for the next call. So the timers run at their fixed rate
    /// however often, or seldom, the host calls.
    pub fn update_timers(&mut self, elapsed_nanos: u128)
        requires
            old(self).wf(),
        ensures
            final(self).wf(),
            final(self)@ == tick_spec(old(self)@, elapsed_nanos as nat),
    {
        let tick: u128 = NANOS_PER_TIMER_TICK as u128;
        let whole: u128 = elapsed_nanos / tick;
        let rest: u64 = (elapsed_nanos % tick) as u64;
        let pending: u64 = self.timer_nanos() + rest;
        let mut fires: u128 = whole;
        let mut left: u64 = pending;
        if pending >= NANOS_PER_TIMER_TICK {
            fires = whole + 1;
            left = pending - NANOS_PER_TIMER_TICK;
        }
        assert(fires == (old(self)@.timer_nanos + elapsed_nanos as nat) / (NANOS_PER_TIMER_TICK as nat));
        assert(left == (old(self)@.timer_nanos + elapsed_nanos as nat) % (NANOS_PER_TIMER_TICK as nat));
        let delay: u8 = count_down(self.delay_timer(), fires);
        let sound: u8 = count_down(self.sound_timer(), fires);
        self.set_delay_timer(delay);
        self.set_sound_timer(sound);
        self.set_timer_nanos(left);
    }
}

} // verus!
