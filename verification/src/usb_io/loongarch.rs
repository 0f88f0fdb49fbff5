//! The LoongArch USB controller: its register block, the writes of
//! bring-up, what an interrupt status asks for, and how endpoint-zero data
//! moves through a 32-bit data register one byte at a time.
use vstd::prelude::*;

verus! {

pub const USB_CONTROLLER_BASE_ADDRESS: usize = 0xFE08_0000;

pub const CONTROL_RESET_BIT: u32 = 1;
pub const CONTROL_ENABLE_CONTROLLER_BIT: u32 = 2;
pub const STATUS_DEVICE_CONNECTED_BIT: u32 = 1;
pub const INT_ENABLE_USB_EVENT_BIT: u32 = 2;
pub const INT_STATUS_USB_EVENT_BIT: u32 = 2;
/// Largest packet endpoint zero carries.
pub const ENDPOINT0_MAX_PACKET: u32 = 64;
/// Spin iterations the reset bit is held for.
pub const RESET_SPINS: u32 = 1000;

/// The registers of the controller, in the order they are laid out.
#[derive(Debug, Clone, Copy, PartialEq, Eq)]
pub enum UsbRegister {
    Control,
    Status,
    Endpoint0Config,
    Endpoint0Data,
    InterruptEnable,
    InterruptStatus,
    InterruptClear,
}

/// A register write for the caller to make.
#[derive(Debug, Clone, Copy, PartialEq, Eq)]
pub struct RegisterWrite {
    pub register: UsbRegister,
    pub value: u32,
}

/// Byte offset of each register: 32-bit registers one after another.
pub open spec fn register_offset_of(register: UsbRegister) -> usize {
    match register {
        UsbRegister::Control => 0,
        UsbRegister::Status => 4,
        UsbRegister::Endpoint0Config => 8,
        UsbRegister::Endpoint0Data => 12,
        UsbRegister::InterruptEnable => 16,
        UsbRegister::InterruptStatus => 20,
        UsbRegister::InterruptClear => 24,
    }
}

pub fn register_offset(register: UsbRegister) -> (r: usize)
    ensures
        r == register_offset_of(register),
{
    match register {
        UsbRegister::Control => 0,
        UsbRegister::Status => 4,
        UsbRegister::Endpoint0Config => 8,
        UsbRegister::Endpoint0Data => 12,
        UsbRegister::InterruptEnable => 16,
        UsbRegister::InterruptStatus => 20,
        UsbRegister::InterruptClear => 24,
    }
}

/// The driver: whether bring-up has run.
#[derive(Debug, Clone, Copy, PartialEq, Eq)]
pub struct UsbDriver {
    pub is_initialized: bool,
}

impl UsbDriver {
    pub fn new() -> (r: Self)
        ensures
            !r.is_initialized,
    {
        UsbDriver { is_initialized: false }
    }

    /// Reset: the reset bit written to the control register, then (after
    /// [`RESET_SPINS`]) zero.
    pub fn reset_controller() -> (r: [RegisterWrite; 2])
        ensures
            r@ == seq![
                RegisterWrite { register: UsbRegister::Control, value: CONTROL_RESET_BIT },
                RegisterWrite { register: UsbRegister::Control, value: 0 },
            ],
    {
        let r = [
            RegisterWrite { register: UsbRegister::Control, value: CONTROL_RESET_BIT },
            RegisterWrite { register: UsbRegister::Control, value: 0 },
        ];
        assert(r@ =~= seq![
            RegisterWrite { register: UsbRegister::Control, value: CONTROL_RESET_BIT },
            RegisterWrite { register: UsbRegister::Control, value: 0 },
        ]);
        r
    }

    /// Endpoint zero takes packets of up to 64 bytes.
    pub fn configure_endpoint0() -> (r: RegisterWrite)
        ensures
            r == (RegisterWrite { register: UsbRegister::Endpoint0Config, value: ENDPOINT0_MAX_PACKET }),
    {
        RegisterWrite { register: UsbRegister::Endpoint0Config, value: ENDPOINT0_MAX_PACKET }
    }

    /// The USB event interrupt is enabled.
    pub fn enable_interrupts() -> (r: RegisterWrite)
        ensures
            r == (RegisterWrite { register: UsbRegister::InterruptEnable, value: INT_ENABLE_USB_EVENT_BIT }),
    {
        RegisterWrite { register: UsbRegister::InterruptEnable, value: INT_ENABLE_USB_EVENT_BIT }
    }

    /// Bring-up: reset, endpoint zero, interrupts, in that order; the
    /// driver is then initialised.
    pub fn init(&mut self) -> (r: [RegisterWrite; 4])
        ensures
            final(self).is_initialized,
            r@ == seq![
                RegisterWrite { register: UsbRegister::Control, value: CONTROL_RESET_BIT },
                RegisterWrite { register: UsbRegister::Control, value: 0 },
                RegisterWrite { register: UsbRegister::Endpoint0Config, value: ENDPOINT0_MAX_PACKET },
                RegisterWrite { register: UsbRegister::InterruptEnable, value: INT_ENABLE_USB_EVENT_BIT },
            ],
    {
        let reset = Self::reset_controller();
        let r = [reset[0], reset[1], Self::configure_endpoint0(), Self::enable_interrupts()];
        self.is_initialized = true;
        assert(r@ =~= seq![
            RegisterWrite { register: UsbRegister::Control, value: CONTROL_RESET_BIT },
            RegisterWrite { register: UsbRegister::Control, value: 0 },
            RegisterWrite { register: UsbRegister::Endpoint0Config, value: ENDPOINT0_MAX_PACKET },
            RegisterWrite { register: UsbRegister::InterruptEnable, value: INT_ENABLE_USB_EVENT_BIT },
        ]);
        r
    }

    /// What the interrupt status read asks for: a USB event is acknowledged
    /// by writing its bit back to the status register; otherwise nothing.
    pub fn handle_interrupt(interrupt_status: u32) -> (r: Option<RegisterWrite>)
        ensures
            (interrupt_status / 2) % 2 == 1 ==> r == Some(
                RegisterWrite { register: UsbRegister::InterruptStatus, value: INT_STATUS_USB_EVENT_BIT },
            ),
            (interrupt_status / 2) % 2 == 0 ==> r is None,
    {
        assert((interrupt_status & 2 != 0) == ((interrupt_status / 2) % 2 == 1)) by (bit_vector);
        if interrupt_status & INT_STATUS_USB_EVENT_BIT != 0 {
            Some(RegisterWrite { register: UsbRegister::InterruptStatus, value: INT_STATUS_USB_EVENT_BIT })
        } else {
            None
        }
    }

    /// The data-register writes that send `data` on endpoint zero: each
    /// byte, in order, as a 32-bit value.
    pub fn send_data_endpoint0(data: &[u8]) -> (r: Vec<u32>)
        ensures
            r@.len() == data@.len(),
            forall|i: int| 0 <= i < data@.len() ==> r@[i] == data@[i] as u32,
    {
        let mut r: Vec<u32> = Vec::new();
        let mut i: usize = 0;
        while i < data.len()
            invariant
                i <= data@.len(),
                r@.len() == i,
                forall|j: int| 0 <= j < i ==> r@[j] == data@[j] as u32,
            decreases data@.len() - i,
        {
            r.push(data[i] as u32);
            i = i + 1;
        }
        r
    }

    /// Fills `buffer` from the values read from the data register, one
    /// read per byte, keeping each value's low byte; gives the bytes
    /// received.
    pub fn receive_data_endpoint0(words: &[u32], buffer: &mut [u8]) -> (r: usize)
        requires
            words@.len() == old(buffer)@.len(),
        ensures
            r == old(buffer)@.len(),
            final(buffer)@.len() == old(buffer)@.len(),
            forall|i: int| 0 <= i < old(buffer)@.len() ==> final(buffer)@[i] == words@[i] % 256,
    {
        let n = buffer.len();
        let mut i: usize = 0;
        while i < n
            invariant
                i <= n,
                n == buffer@.len(),
                words@.len() == n,
                forall|j: int| 0 <= j < i ==> buffer@[j] == words@[j] % 256,
            decreases n - i,
        {
            let w = words[i];
            let b = (w & 0xFF) as u8;
            assert(w & 0xFF == w % 256) by (bit_vector);
            buffer[i] = b;
            i = i + 1;
        }
        n
    }
}

} // verus!
