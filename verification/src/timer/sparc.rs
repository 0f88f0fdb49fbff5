//! Timer of SPARC systems: a limit register re-armed one millisecond
//! ahead at every interrupt, wrapping around.
use vstd::prelude::*;
use vstd::wrapping::u64_specs::wrapping_add;
use super::{TickCounter, DelayWait, delay_fits, delay_ticks};

verus! {

pub const TIMER_COUNTER_REG: u64 = 0x12345000;
pub const TIMER_LIMIT_REG: u64 = 0x12345008;
pub const TIMER_CONTROL_REG: u64 = 0x12345010;
pub const TIMER_INTERRUPT_REG: u64 = 0x12345018;
pub const CLOCK_FREQ: u64 = 10_000_000;
pub const TIMER_INTERRUPT_VECTOR: u8 = 14;
/// Control value: enabled (bit 0) and periodic (bit 1).
pub const TIMER_CONTROL: u64 = 0x03;

pub fn ticks(counter: &TickCounter) -> (r: u64)
    ensures
        r == counter.ticks,
{
    counter.ticks()
}

pub fn delay_ms(counter: &TickCounter, ms: u64) -> (r: DelayWait)
    requires
        delay_fits(counter.ticks, ms, CLOCK_FREQ),
    ensures
        r.target == counter.ticks + delay_ticks(ms, CLOCK_FREQ),
{
    DelayWait::start(counter.ticks(), ms, CLOCK_FREQ)
}

/// The limit one millisecond after `current`, wrapping around.
pub fn next_limit(current: u64) -> (r: u64)
    ensures
        r == wrapping_add(current, CLOCK_FREQ / 1000),
{
    current.wrapping_add(CLOCK_FREQ / 1000)
}

/// The timer interrupt at counter value `current`: counts a tick and gives
/// the next limit.
pub fn timer_interrupt_handler(counter: &mut TickCounter, current: u64) -> (r: u64)
    ensures
        r == wrapping_add(current, CLOCK_FREQ / 1000),
        final(counter).ticks == wrapping_add(old(counter).ticks, 1),
{
    counter.tick();
    next_limit(current)
}

/// Set-up at counter value `current`: the control value, then the first limit.
pub fn init(current: u64) -> (r: (u64, u64))
    ensures
        r == (TIMER_CONTROL, wrapping_add(current, CLOCK_FREQ / 1000)),
{
    (TIMER_CONTROL, next_limit(current))
}

} // verus!
