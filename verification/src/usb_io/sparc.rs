//! The SPARC USB controller: a control register with reset (bit 0) and
//! enable (bit 1), and a status register with the device-connected bit.
use vstd::prelude::*;

verus! {

pub const USB_CONTROLLER_BASE_ADDRESS: usize = 0xFEF0_0000;
pub const USB_CONTROL_REGISTER_OFFSET: usize = 0x00;
pub const USB_STATUS_REGISTER_OFFSET: usize = 0x04;

pub const CONTROL_RESET_BIT: u32 = 1;
pub const CONTROL_ENABLE_BIT: u32 = 2;
pub const STATUS_DEVICE_CONNECTED_BIT: u32 = 1;
pub const STATUS_RX_DATA_READY_BIT: u32 = 2;
pub const STATUS_TX_BUFFER_EMPTY_BIT: u32 = 4;

/// Spin iterations the reset bit is held for.
pub const RESET_SPINS: u32 = 10_000;

/// Addresses of the control and status registers.
pub fn register_addresses() -> (r: (usize, usize))
    ensures
        r.0 == USB_CONTROLLER_BASE_ADDRESS + USB_CONTROL_REGISTER_OFFSET,
        r.1 == USB_CONTROLLER_BASE_ADDRESS + USB_STATUS_REGISTER_OFFSET,
{
    (USB_CONTROLLER_BASE_ADDRESS + USB_CONTROL_REGISTER_OFFSET, USB_CONTROLLER_BASE_ADDRESS + USB_STATUS_REGISTER_OFFSET)
}

/// The three control-register writes of bring-up, each from the value read
/// just before it: set the reset bit, clear it again (after
/// [`RESET_SPINS`]), then set the enable bit; every other bit is kept.
pub fn usb_controller_init(before_reset: u32, before_release: u32, before_enable: u32) -> (r: [u32; 3])
    ensures
        r[0] == before_reset | CONTROL_RESET_BIT,
        r[1] == before_release & !CONTROL_RESET_BIT,
        r[2] == before_enable | CONTROL_ENABLE_BIT,
        r[0] % 2 == 1,
        r[1] % 2 == 0,
        (r[2] / 2) % 2 == 1,
        r[0] / 2 == before_reset / 2,
        r[1] / 2 == before_release / 2,
        r[2] % 2 == before_enable % 2 && r[2] / 4 == before_enable / 4,
{
    let a = before_reset | CONTROL_RESET_BIT;
    let b = before_release & !CONTROL_RESET_BIT;
    let c = before_enable | CONTROL_ENABLE_BIT;
    assert(a % 2 == 1 && a / 2 == before_reset / 2) by (bit_vector)
        requires
            a == before_reset | 1u32,
    ;
    assert(b % 2 == 0 && b / 2 == before_release / 2) by (bit_vector)
        requires
            b == before_release & !1u32,
    ;
    assert((c / 2) % 2 == 1 && c % 2 == before_enable % 2 && c / 4 == before_enable / 4) by (bit_vector)
        requires
            c == before_enable | 2u32,
    ;
    [a, b, c]
}

/// Whether the status register shows an attached device.
pub fn usb_device_detect(status: u32) -> (r: bool)
    ensures
        r == (status % 2 == 1),
{
    proof { crate::bits::lemma_low_bit(status); }
    status & STATUS_DEVICE_CONNECTED_BIT != 0
}

/// Receiving: the buffer is cleared and no byte is reported received.
pub fn usb_receive_data(buffer: &mut [u8]) -> (r: usize)
    ensures
        r == 0,
        final(buffer)@ == Seq::new(old(buffer)@.len(), |i: int| 0u8),
{
    let n = buffer.len();
    let mut i: usize = 0;
    while i < n
        invariant
            i <= n,
            n == buffer@.len(),
            forall|j: int| 0 <= j < i ==> buffer@[j] == 0u8,
        decreases n - i,
    {
        buffer[i] = 0;
        i = i + 1;
    }
    assert(buffer@ =~= Seq::new(n as nat, |i: int| 0u8));
    0
}

/// Sending: reported as done.
pub fn usb_send_data(buffer: &[u8]) -> (r: bool)
    ensures
        r,
{
    true
}

} // verus!
