//! Tick-based timers: a counter the timer interrupt advances, busy waits
//! measured against it, and the per-architecture set-up of the interrupt.
pub mod arm;
pub mod elbrus;
pub mod loongarch;
pub mod powerpc;
pub mod sparc;
pub mod x86;

use vstd::prelude::*;
use vstd::wrapping::u64_specs::wrapping_add;

verus! {

/// Timer interrupts seen so far.
#[derive(Debug, Clone, Copy, PartialEq, Eq)]
pub struct TickCounter {
    pub ticks: u64,
}

impl TickCounter {
    pub fn new() -> (r: Self)
        ensures
            r.ticks == 0,
    {
        TickCounter { ticks: 0 }
    }

    pub fn ticks(&self) -> (r: u64)
        ensures
            r == self.ticks,
    {
        self.ticks
    }

    /// One more interrupt; the count wraps as an atomic add does.
    pub fn tick(&mut self)
        ensures
            final(self).ticks == wrapping_add(old(self).ticks, 1),
    {
        self.ticks = self.ticks.wrapping_add(1);
    }
}

/// The count after `n` timer interrupts, starting from `t`.
pub open spec fn ticks_after(t: u64, n: nat) -> u64
    decreases n,
{
    if n == 0 {
        t
    } else {
        wrapping_add(ticks_after(t, (n - 1) as nat), 1)
    }
}

/// Over `n` timer interrupts the tick count grows by exactly `n`, as long as
/// it does not pass the largest count; reading it changes nothing.
pub proof fn law_ticks_count_interrupts(t: u64, n: nat)
    requires
        t + n <= u64::MAX,
    ensures
        ticks_after(t, n) == t + n,
        t <= ticks_after(t, n),
    decreases n,
{
    if n > 0 {
        law_ticks_count_interrupts(t, (n - 1) as nat);
    }
}

/// A busy wait: it is over once the counter reaches `target`.
#[derive(Debug, Clone, Copy, PartialEq, Eq)]
pub struct DelayWait {
    pub target: u64,
}

/// Ticks in `ms` milliseconds of a clock of `clock_freq` Hz.
pub open spec fn delay_ticks(ms: u64, clock_freq: u64) -> int {
    (ms * clock_freq) / 1000
}

/// Whether a delay of `ms` from `now` can be counted without overflow.
pub open spec fn delay_fits(now: u64, ms: u64, clock_freq: u64) -> bool {
    &&& ms * clock_freq <= u64::MAX
    &&& now + delay_ticks(ms, clock_freq) <= u64::MAX
}

impl DelayWait {
    /// Starts a wait of `ms` milliseconds at tick `now`.
    pub fn start(now: u64, ms: u64, clock_freq: u64) -> (r: Self)
        requires
            delay_fits(now, ms, clock_freq),
        ensures
            r.target == now + delay_ticks(ms, clock_freq),
    {
        DelayWait { target: now + ms * clock_freq / 1000 }
    }

    /// Whether the wait is over at tick `now`.
    pub fn done(&self, now: u64) -> (r: bool)
        ensures
            r == (now >= self.target),
    {
        now >= self.target
    }
}

/// Once a wait is over it stays over as the counter advances, and it is
/// over once the counter has gone the requested ticks past its start.
pub proof fn law_wait_ends(now: u64, ms: u64, clock_freq: u64, t1: u64, t2: u64)
    requires
        delay_fits(now, ms, clock_freq),
        t1 <= t2,
    ensures
        ({
            let w = DelayWait { target: (now + delay_ticks(ms, clock_freq)) as u64 };
            &&& t1 >= w.target ==> t2 >= w.target
            &&& t1 >= now + delay_ticks(ms, clock_freq) ==> t1 >= w.target
        }),
{
}

/// Comparator value for the next interrupt, one millisecond after `current`.
pub fn next_compare(current: u64, clock_freq: u64) -> (r: u64)
    requires
        current + clock_freq / 1000 <= u64::MAX,
    ensures
        r == current + clock_freq / 1000,
{
    current + clock_freq / 1000
}

} // verus!
