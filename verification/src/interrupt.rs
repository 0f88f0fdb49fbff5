//! Interrupt set-up and USB interrupt handling: the x86 gate and PIC
//! programming for the USB line, the vector tables and enable bits of the
//! ARM, LoongArch, PowerPC and SPARC set-up, and what the ARM and LoongArch
//! handlers do with the USB status they read.
use vstd::prelude::*;
use crate::codec::{le16_bytes, u16_to_le};

verus! {

/// USB line on the x86 PIC, and the vector the PIC maps line 0 to.
pub const USB_IRQ_NUM: u8 = 11;
pub const IRQ_BASE_VECTOR: u8 = 32;
/// Code segment selector and gate type of the x86 entries.
pub const KERNEL_CODE_SELECTOR: u16 = 0x08;
pub const INTERRUPT_GATE: u8 = 0x8E;

/// A 32-bit interrupt gate.
#[derive(Debug, Clone, Copy, PartialEq, Eq)]
pub struct IDTEntry {
    pub offset_low: u16,
    pub selector: u16,
    pub zero: u8,
    pub type_attributes: u8,
    pub offset_high: u16,
}

/// The vector the USB line arrives on.
pub fn usb_irq_vector() -> (r: u8)
    ensures
        r == IRQ_BASE_VECTOR + USB_IRQ_NUM,
{
    IRQ_BASE_VECTOR + USB_IRQ_NUM
}

/// The IDT entry for the handler at `handler_addr`: its low and high 16
/// bits, with the kernel's code selector.
pub fn gate(handler_addr: u32) -> (r: IDTEntry)
    ensures
        r.offset_low == handler_addr % 0x1_0000,
        r.offset_high == handler_addr / 0x1_0000,
        r.offset_low + r.offset_high * 0x1_0000 == handler_addr,
        r.selector == KERNEL_CODE_SELECTOR,
        r.zero == 0,
        r.type_attributes == INTERRUPT_GATE,
{
    let low = (handler_addr & 0xFFFF) as u16;
    let high = (handler_addr >> 16) as u16;
    assert(handler_addr & 0xFFFF == handler_addr % 0x1_0000 && handler_addr >> 16 == handler_addr / 0x1_0000) by (bit_vector);
    IDTEntry { offset_low: low, selector: KERNEL_CODE_SELECTOR, zero: 0, type_attributes: INTERRUPT_GATE, offset_high: high }
}

/// Bytes of one gate in memory, and the limit of a 256-gate table.
pub const IDT_ENTRY_SIZE: usize = 8;
pub const IDT_LIMIT: u16 = 2047;

/// A gate as it lies in memory: offset low, selector (both little-endian),
/// the zero byte, the type byte, then offset high.
pub fn entry_bytes(entry: IDTEntry) -> (r: [u8; 8])
    ensures
        r@ == le16_bytes(entry.offset_low) + le16_bytes(entry.selector) + seq![entry.zero, entry.type_attributes]
            + le16_bytes(entry.offset_high),
{
    let low = u16_to_le(entry.offset_low);
    let sel = u16_to_le(entry.selector);
    let high = u16_to_le(entry.offset_high);
    let r = [low[0], low[1], sel[0], sel[1], entry.zero, entry.type_attributes, high[0], high[1]];
    assert(r@ =~= le16_bytes(entry.offset_low) + le16_bytes(entry.selector) + seq![entry.zero, entry.type_attributes]
        + le16_bytes(entry.offset_high));
    r
}

/// The table: every vector to the default handler, the USB vector to the
/// USB handler.
pub fn build_idt(default_handler: u32, usb_handler: u32) -> (r: Vec<IDTEntry>)
    ensures
        r@.len() == 256,
        forall|v: int| 0 <= v < 256 && v != IRQ_BASE_VECTOR + USB_IRQ_NUM ==> r@[v] == gate_spec(default_handler),
        r@[IRQ_BASE_VECTOR + USB_IRQ_NUM] == gate_spec(usb_handler),
{
    let d = gate(default_handler);
    let mut idt: Vec<IDTEntry> = Vec::new();
    let mut i: usize = 0;
    while i < 256
        invariant
            i <= 256,
            idt@.len() == i,
            d == gate_spec(default_handler),
            forall|v: int| 0 <= v < i ==> idt@[v] == d,
        decreases 256 - i,
    {
        idt.push(d);
        i = i + 1;
    }
    let vector = usb_irq_vector() as usize;
    idt.set(vector, gate(usb_handler));
    idt
}

/// The entry that [`gate`] builds.
pub open spec fn gate_spec(handler_addr: u32) -> IDTEntry {
    IDTEntry {
        offset_low: (handler_addr % 0x1_0000) as u16,
        selector: KERNEL_CODE_SELECTOR,
        zero: 0,
        type_attributes: INTERRUPT_GATE,
        offset_high: (handler_addr / 0x1_0000) as u16,
    }
}

/// Port writes that remap the two PICs above the exceptions and mask every
/// line: the four initialisation words to each, then all-ones masks.
pub fn pic_init_sequence() -> (r: [(u16, u8); 10])
    ensures
        r@ == seq![
            (0x20u16, 0x11u8), (0xA0, 0x11),
            (0x21, IRQ_BASE_VECTOR), (0xA1, (IRQ_BASE_VECTOR + 8) as u8),
            (0x21, 0x04), (0xA1, 0x02),
            (0x21, 0x01), (0xA1, 0x01),
            (0x21, 0xFF), (0xA1, 0xFF),
        ],
{
    let r = [
        (0x20u16, 0x11u8), (0xA0, 0x11),
        (0x21, IRQ_BASE_VECTOR), (0xA1, IRQ_BASE_VECTOR + 8),
        (0x21, 0x04), (0xA1, 0x02),
        (0x21, 0x01), (0xA1, 0x01),
        (0x21, 0xFF), (0xA1, 0xFF),
    ];
    assert(r@ =~= seq![
        (0x20u16, 0x11u8), (0xA0, 0x11),
        (0x21, IRQ_BASE_VECTOR), (0xA1, (IRQ_BASE_VECTOR + 8) as u8),
        (0x21, 0x04), (0xA1, 0x02),
        (0x21, 0x01), (0xA1, 0x01),
        (0x21, 0xFF), (0xA1, 0xFF),
    ]);
    r
}

/// Entries of the ARM, PowerPC and SPARC vector tables.
pub const VECTOR_TABLE_SIZE: usize = 256;
/// Where the PowerPC table lies.
pub const POWERPC_VECTOR_TABLE_BASE: usize = 0x1000;
/// Slot of the USB handler in the ARM table.
pub const ARM_USB_IRQ: usize = 12;
/// Slots of the timer and USB handlers in the PowerPC and SPARC tables.
pub const TIMER_IRQ: usize = 0;
pub const USB_IRQ: usize = 1;

/// ARM: where the table's address is written, and the USB controller's
/// interrupt-enable register with the value that enables its line.
pub const ARM_VECTOR_TABLE_REGISTER: usize = 0xE000ED08;
pub const ARM_USB_INTERRUPT_ENABLE_REGISTER: usize = 0x4000_0008;
pub const ARM_USB_INTERRUPT_ENABLE_VALUE: u32 = 0x1000;

/// LoongArch: the bits set in the interrupt-enable register (machine timer
/// and USB) and in the status register (global enable).
pub const LOONGARCH_ENABLED_INTERRUPTS: usize = 0x1080;
pub const LOONGARCH_GLOBAL_ENABLE: usize = 0x8;

/// PowerPC: the interrupt-enable bit of the machine state register.
pub const POWERPC_MSR_IE: usize = 0x8000;
/// SPARC: the enable-traps bit of the processor state register.
pub const SPARC_PSR_ET: usize = 0x10;

/// The registers the PowerPC and SPARC handlers write to acknowledge their
/// interrupt, and the value they write.
pub const POWERPC_TIMER_CLEAR_REGISTER: usize = 0xE000_0000;
pub const POWERPC_USB_CLEAR_REGISTER: usize = 0xE000_1014;
pub const SPARC_TIMER_CLEAR_REGISTER: usize = 0xD000_0000;
pub const SPARC_USB_CLEAR_REGISTER: usize = 0xD000_1014;
pub const IRQ_CLEAR_VALUE: u32 = 1;

/// `count` copies of `value`.
fn filled(count: usize, value: usize) -> (r: Vec<usize>)
    ensures
        r@ == Seq::new(count as nat, |i: int| value),
{
    let mut table: Vec<usize> = Vec::new();
    let mut i: usize = 0;
    while i < count
        invariant
            i <= count,
            table@ == Seq::new(i as nat, |k: int| value),
        decreases count - i,
    {
        table.push(value);
        proof {
            assert(table@ =~= Seq::new((i + 1) as nat, |k: int| value));
        }
        i = i + 1;
    }
    table
}

/// The ARM table: every slot the default handler, the USB slot the USB
/// handler.
pub fn arm_vector_table(default_handler: usize, usb_handler: usize) -> (r: Vec<usize>)
    ensures
        r@ == Seq::new(VECTOR_TABLE_SIZE as nat, |i: int| default_handler).update(ARM_USB_IRQ as int, usb_handler),
{
    let mut table = filled(VECTOR_TABLE_SIZE, default_handler);
    table.set(ARM_USB_IRQ, usb_handler);
    table
}

/// The PowerPC table: cleared, then the timer and USB handlers in their
/// slots.
pub fn powerpc_vector_table(timer_handler: usize, usb_handler: usize) -> (r: Vec<usize>)
    ensures
        r@ == Seq::new(VECTOR_TABLE_SIZE as nat, |i: int| 0usize).update(TIMER_IRQ as int, timer_handler).update(
            USB_IRQ as int,
            usb_handler,
        ),
{
    let mut table = filled(VECTOR_TABLE_SIZE, 0);
    table.set(TIMER_IRQ, timer_handler);
    table.set(USB_IRQ, usb_handler);
    table
}

/// The SPARC table: every slot the empty handler, then the timer and USB
/// handlers in their slots.
pub fn sparc_vector_table(empty_handler: usize, timer_handler: usize, usb_handler: usize) -> (r: Vec<usize>)
    ensures
        r@ == Seq::new(VECTOR_TABLE_SIZE as nat, |i: int| empty_handler).update(TIMER_IRQ as int, timer_handler).update(
            USB_IRQ as int,
            usb_handler,
        ),
{
    let mut table = filled(VECTOR_TABLE_SIZE, empty_handler);
    table.set(TIMER_IRQ, timer_handler);
    table.set(USB_IRQ, usb_handler);
    table
}

/// PowerPC: the machine state with interrupts enabled.
pub fn powerpc_enable_interrupts(msr: usize) -> (r: usize)
    ensures
        r == msr | POWERPC_MSR_IE,
{
    msr | POWERPC_MSR_IE
}

/// SPARC: the processor state with traps enabled.
pub fn sparc_enable_traps(psr: usize) -> (r: usize)
    ensures
        r == psr | SPARC_PSR_ET,
{
    psr | SPARC_PSR_ET
}

/// What a USB interrupt handler does for a status it read.
#[derive(Debug, Clone, Copy, PartialEq, Eq)]
pub struct UsbInterruptActions {
    /// A byte arrived and is to be read.
    pub receive: bool,
    /// A transmission finished.
    pub transmitted: bool,
    /// Value to write back to the status register, if any.
    pub write_back: Option<u32>,
}

/// ARM: bit 0 is a received byte, bit 1 a finished transmission; the flags
/// read are written back to clear them.
pub fn arm_usb_interrupt(status: u32) -> (r: UsbInterruptActions)
    ensures
        r.receive == (status % 2 == 1),
        r.transmitted == ((status / 2) % 2 == 1),
        r.write_back == Some(status),
{
    assert(status & 1 == status % 2 && (status & 2 != 0) == ((status / 2) % 2 == 1)) by (bit_vector);
    UsbInterruptActions { receive: status & 1 != 0, transmitted: status & 2 != 0, write_back: Some(status) }
}

/// LoongArch: the same two bits; when either is set, the status is written
/// back with them cleared.
pub fn loongarch_usb_interrupt(status: u32) -> (r: UsbInterruptActions)
    ensures
        r.receive == (status % 2 == 1),
        r.transmitted == ((status / 2) % 2 == 1),
        status % 4 == 0 ==> r.write_back is None,
        status % 4 != 0 ==> r.write_back == Some(((status / 4) * 4) as u32),
{
    let to_clear = status & 0x3;
    assert(status & 1 == status % 2 && (status & 2 != 0) == ((status / 2) % 2 == 1)
        && status & 3 == status % 4 && status & !3u32 == (status / 4) * 4) by (bit_vector);
    let write_back = if to_clear != 0 { Some(status & !to_clear) } else { None };
    assert(to_clear != 0 ==> status & !to_clear == status & !3u32) by (bit_vector)
        requires
            to_clear == status & 3,
    ;
    UsbInterruptActions { receive: status & 1 != 0, transmitted: status & 2 != 0, write_back }
}

} // verus!
