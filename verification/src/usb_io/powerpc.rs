//! The PowerPC USB controller: a reset register pulsed at start-up, a
//! control register with the enable bit, and the device-connected bit of
//! the status register.
use vstd::prelude::*;

verus! {

pub const USB_BASE_ADRES: usize = 0xF000_0000;
pub const KONTROL_KAYDI_OFFSET: usize = 0x00;
pub const DURUM_KAYDI_OFFSET: usize = 0x04;
pub const RESET_KAYDI_OFFSET: usize = 0x08;
/// Address of the reset register.
pub const RESET_KAYDI_ADRESI: usize = USB_BASE_ADRES + RESET_KAYDI_OFFSET;

pub const KONTROL_ETKINLESTIR_BITI: u32 = 1;
pub const DURUM_AYGIT_BAGLI_BITI: u32 = 1;
pub const RESET_TETIKLE_BITI: u32 = 1;
/// Spin iterations the reset is held for.
pub const RESET_BEKLEME: u32 = 1000;

/// The reset pulse: the trigger bit, then (after [`RESET_BEKLEME`]) zero,
/// both to the reset register.
pub fn reset_writes() -> (r: [(usize, u32); 2])
    ensures
        r@ == seq![(RESET_KAYDI_ADRESI, RESET_TETIKLE_BITI), (RESET_KAYDI_ADRESI, 0u32)],
{
    let reset = RESET_KAYDI_ADRESI;
    let r = [(reset, RESET_TETIKLE_BITI), (reset, 0u32)];
    assert(r@ =~= seq![(RESET_KAYDI_ADRESI, RESET_TETIKLE_BITI), (RESET_KAYDI_ADRESI, 0u32)]);
    r
}

/// The control register value that enables the controller, from the value
/// read: the enable bit set, the rest kept.
pub fn enable_value(current: u32) -> (r: u32)
    ensures
        r == current | KONTROL_ETKINLESTIR_BITI,
        r % 2 == 1,
        r / 2 == current / 2,
{
    let r = current | KONTROL_ETKINLESTIR_BITI;
    assert(r % 2 == 1 && r / 2 == current / 2) by (bit_vector)
        requires
            r == current | 1u32,
    ;
    r
}

/// Whether the status register shows an attached device, which is then
/// enumerated.
pub fn device_connected(status: u32) -> (r: bool)
    ensures
        r == (status % 2 == 1),
{
    proof { crate::bits::lemma_low_bit(status); }
    status & DURUM_AYGIT_BAGLI_BITI != 0
}

} // verus!
