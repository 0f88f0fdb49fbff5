//! Timer of Cortex-A systems.
use vstd::prelude::*;
use super::{TickCounter, DelayWait, delay_fits, delay_ticks};

verus! {

pub fn ticks(counter: &TickCounter) -> (r: u64)
    ensures
        r == counter.ticks,
{
    counter.ticks()
}

/// Starts a wait of `ms` milliseconds on a clock of `clock_freq` Hz.
pub fn delay_ms(counter: &TickCounter, ms: u64, clock_freq: u64) -> (r: DelayWait)
    requires
        delay_fits(counter.ticks, ms, clock_freq),
    ensures
        r.target == counter.ticks + delay_ticks(ms, clock_freq),
{
    DelayWait::start(counter.ticks(), ms, clock_freq)
}

/// A step of bringing the timer up, made by the platform.
#[derive(Debug, Clone, Copy, PartialEq, Eq)]
pub enum TimerSetup {
    InitTimer,
    EnableTimerInterrupt,
    RegisterHandler,
}

/// The steps of bringing the timer up, in order: the timer, its
/// interrupt, then the handler.
pub fn init() -> (r: [TimerSetup; 3])
    ensures
        r@ == seq![TimerSetup::InitTimer, TimerSetup::EnableTimerInterrupt, TimerSetup::RegisterHandler],
{
    let r = [TimerSetup::InitTimer, TimerSetup::EnableTimerInterrupt, TimerSetup::RegisterHandler];
    assert(r@ =~= seq![TimerSetup::InitTimer, TimerSetup::EnableTimerInterrupt, TimerSetup::RegisterHandler]);
    r
}

/// The timer interrupt: the timer is re-armed by the platform and one
/// more tick is counted.
pub fn timer_interrupt_handler(counter: &mut TickCounter)
    ensures
        final(counter).ticks == vstd::wrapping::u64_specs::wrapping_add(old(counter).ticks, 1),
{
    counter.tick();
}

} // verus!
