//! Timer of loongarch systems: a comparator re-armed one millisecond ahead at
//! every interrupt.
use vstd::prelude::*;
use super::{TickCounter, DelayWait, delay_fits, delay_ticks, next_compare};

verus! {

pub fn ticks(counter: &TickCounter) -> (r: u64)
    ensures
        r == counter.ticks,
{
    counter.ticks()
}

/// Starts a wait of `ms` milliseconds on a clock of `clock_freq` Hz.
pub fn delay_ms(counter: &TickCounter, ms: u64, clock_freq: u64) -> (r: DelayWait)
    requires
        delay_fits(counter.ticks, ms, clock_freq),
    ensures
        r.target == counter.ticks + delay_ticks(ms, clock_freq),
{
    DelayWait::start(counter.ticks(), ms, clock_freq)
}

/// The timer interrupt at time `current`: counts a tick and gives the
/// comparator value of the next one.
pub fn timer_interrupt_handler(counter: &mut TickCounter, current: u64, clock_freq: u64) -> (r: u64)
    requires
        current + clock_freq / 1000 <= u64::MAX,
    ensures
        r == current + clock_freq / 1000,
        final(counter).ticks == vstd::wrapping::u64_specs::wrapping_add(old(counter).ticks, 1),
{
    counter.tick();
    next_compare(current, clock_freq)
}

/// Set-up at time `current`: the first comparator value.
pub fn init(current: u64, clock_freq: u64) -> (r: u64)
    requires
        current + clock_freq / 1000 <= u64::MAX,
    ensures
        r == current + clock_freq / 1000,
{
    next_compare(current, clock_freq)
}

} // verus!
