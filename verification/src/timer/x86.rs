//! Timer of x86 systems: the PIT in rate-generator mode at 1 kHz, on IRQ0
//! of the master PIC.
use vstd::prelude::*;
use super::{TickCounter, DelayWait};

verus! {

/// Base frequency of the PIT, in Hz.
pub const CLOCK_FREQ: u64 = 1_193_182;
/// Control word: channel 0, low then high byte, mode 2, binary.
pub const PIT_CONTROL_WORD: u8 = 0x34;
pub const PIT_COMMAND_PORT: u16 = 0x43;
pub const PIT_CHANNEL0_PORT: u16 = 0x40;
pub const PIC1_COMMAND_PORT: u16 = 0x20;
pub const PIC1_DATA_PORT: u16 = 0x21;
pub const PIC_EOI: u8 = 0x20;

pub fn ticks(counter: &TickCounter) -> (r: u64)
    ensures
        r == counter.ticks,
{
    counter.ticks()
}

/// Starts a wait of `ms` milliseconds: the PIT interrupts once a
/// millisecond, so the wait is over `ms` ticks from now.
pub fn delay_ms(counter: &TickCounter, ms: u64) -> (r: DelayWait)
    requires
        counter.ticks + ms <= u64::MAX,
    ensures
        r.target == counter.ticks + ms,
{
    DelayWait { target: counter.ticks() + ms }
}

/// How the PIT is programmed: the control word, then the divisor for a
/// 1 ms period, low byte first.
#[derive(Debug, Clone, Copy, PartialEq, Eq)]
pub struct PitSetup {
    pub control: u8,
    pub divisor: u16,
    pub lsb: u8,
    pub msb: u8,
}

pub fn pit_setup() -> (r: PitSetup)
    ensures
        r.control == PIT_CONTROL_WORD,
        r.divisor == CLOCK_FREQ / 1000,
        r.lsb == r.divisor % 256,
        r.msb == r.divisor / 256,
{
    let divisor: u16 = (CLOCK_FREQ / 1000) as u16;
    let lsb = (divisor & 0xFF) as u8;
    let msb = ((divisor >> 8) & 0xFF) as u8;
    assert(divisor & 0xFF == divisor % 256 && (divisor >> 8) & 0xFF == divisor / 256) by (bit_vector);
    PitSetup { control: PIT_CONTROL_WORD, divisor, lsb, msb }
}

/// The PIC mask with IRQ0 unmasked and every other line as it was.
pub fn unmask_irq0(mask: u8) -> (r: u8)
    ensures
        r == mask & 0xFE,
        r % 2 == 0,
        forall|bit: u8| 1 <= bit < 8 ==> (#[trigger] (r >> bit)) % 2 == (mask >> bit) % 2,
{
    let r = mask & !1u8;
    assert(!1u8 == 0xFEu8) by (bit_vector);
    assert(r % 2 == 0) by (bit_vector) requires r == mask & 0xFE;
    assert forall|bit: u8| 1 <= bit < 8 implies (#[trigger] (r >> bit)) % 2 == (mask >> bit) % 2 by {
        assert(1 <= bit < 8 && r == mask & 0xFE ==> (r >> bit) % 2 == (mask >> bit) % 2) by (bit_vector);
    }
    r
}

/// The timer interrupt: counts a tick; the end of interrupt goes to the
/// master PIC.
pub fn timer_interrupt_handler(counter: &mut TickCounter) -> (r: (u16, u8))
    ensures
        r == (PIC1_COMMAND_PORT, PIC_EOI),
        final(counter).ticks == vstd::wrapping::u64_specs::wrapping_add(old(counter).ticks, 1),
{
    counter.tick();
    (PIC1_COMMAND_PORT, PIC_EOI)
}

} // verus!
