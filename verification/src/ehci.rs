//! EHCI host controller logic: the register layout, the fields of the
//! capability and port registers, and the decisions of the port scan, of
//! device bring-up and of a control transfer. The register reads and writes
//! themselves are made by the caller, which hands each value read back here.
use vstd::prelude::*;
use vstd::wrapping::usize_specs::wrapping_add;
use crate::codec::le16_bytes;

verus! {

pub const EHCI_CAP_LENGTH_OFFSET: usize = 0x00;
pub const EHCI_VERSION_OFFSET: usize = 0x02;
pub const EHCI_HCSPARAMS_OFFSET: usize = 0x04;
pub const EHCI_HCCPARAMS_OFFSET: usize = 0x08;
pub const EHCI_USBCMD_OFFSET: usize = 0x00;
pub const EHCI_USBSTS_OFFSET: usize = 0x04;
pub const EHCI_USBINTREN_OFFSET: usize = 0x08;
pub const EHCI_FRINDEX_OFFSET: usize = 0x0C;
pub const EHCI_CONFIGFLAG_OFFSET: usize = 0x40;
pub const EHCI_PORTSC_BASE_OFFSET: usize = 0x44;

// USBCMD bits.
pub const CMD_RUN_STOP: u32 = 0x1;
pub const CMD_HOST_CONTROLLER_RESET: u32 = 0x2;
pub const CMD_PERIODIC_SCHEDULE_ENABLE: u32 = 0x10;
pub const CMD_ASYNCHRONOUS_SCHEDULE_ENABLE: u32 = 0x20;

// USBSTS bits.
pub const STS_USB_INTERRUPT: u32 = 0x1;
pub const STS_ERROR_INTERRUPT: u32 = 0x2;
pub const STS_PORT_CHANGE_DETECT: u32 = 0x4;
pub const STS_HOST_SYSTEM_ERROR: u32 = 0x10;
pub const STS_HC_HALTED: u32 = 0x1000;
/// The status bits that end a transfer: completion, error, host error.
pub const STS_COMPLETION: u32 = 0x13;
/// The status bits that fail a transfer: error and host error.
pub const STS_ERRORS: u32 = 0x12;

// PORTSC bits.
pub const PORT_CURRENT_CONNECT_STATUS: u32 = 0x1;
pub const PORT_ENABLED_DISABLED: u32 = 0x2;
pub const PORT_RESET: u32 = 0x10;
pub const PORT_OWNER: u32 = 0x2000;
pub const PORT_CONNECT_STATUS_CHANGE: u32 = 0x1_0000;
pub const PORT_ENABLED_CHANGE: u32 = 0x2_0000;
pub const PORT_SUSPEND_CHANGE: u32 = 0x4_0000;
pub const PORT_OVER_CURRENT_CHANGE: u32 = 0x8_0000;
pub const PORT_RESET_CHANGE: u32 = 0x10_0000;
/// Change bits other than the connect change: enable, suspend,
/// over-current and reset changes.
pub const PORT_OTHER_CHANGES: u32 = 0x1E_0000;
/// Change bits cleared after a port reset: connect, enable, over-current
/// and reset changes.
pub const PORT_RESET_CLEAR: u32 = 0x1B_0000;

/// Address a newly enumerated device is given.
pub const TEMPORARY_DEVICE_ADDRESS: u8 = 1;
/// Status polls a control transfer waits for before it times out.
pub const CONTROL_TRANSFER_POLLS: u32 = 10_000_000;

/// Host Controller Structural Parameters.
#[derive(Debug, Clone, Copy, PartialEq, Eq)]
pub struct HcsParams {
    pub bits: u32,
}

/// Host Controller Capability Parameters.
#[derive(Debug, Clone, Copy, PartialEq, Eq)]
pub struct HccParams {
    pub bits: u32,
}

/// A port status and control register value.
#[derive(Debug, Clone, Copy, PartialEq, Eq)]
pub struct PortStatusControlFlags {
    pub bits: u32,
}

#[derive(Debug, Clone, Copy, PartialEq, Eq)]
pub enum PortSpeed {
    LowSpeed,
    FullSpeed,
    HighSpeed,
    Unknown,
}

#[derive(Debug, Clone, Copy, PartialEq, Eq)]
pub enum LineStatus {
    SE0,
    KState,
    JState,
    Undefined,
}

impl HcsParams {
    /// Number of ports, bits 3:0.
    pub fn port_count(&self) -> (r: u8)
        ensures
            r == self.bits % 16,
    {
        let b = self.bits;
        assert(b & 0xF == b % 16) by (bit_vector);
        (b & 0xF) as u8
    }

    /// Number of companion controllers, bits 19:16.
    pub fn companion_controller_count(&self) -> (r: u8)
        ensures
            r == (self.bits / 0x1_0000) % 16,
    {
        let b = self.bits;
        assert((b & 0xF_0000) >> 16 == (b / 0x1_0000) % 16) by (bit_vector);
        ((b & 0xF_0000) >> 16) as u8
    }

    /// Ports per companion controller, bits 15:12.
    pub fn ports_per_companion_controller(&self) -> (r: u8)
        ensures
            r == (self.bits / 0x1000) % 16,
    {
        let b = self.bits;
        assert((b & 0xF000) >> 12 == (b / 0x1000) % 16) by (bit_vector);
        ((b & 0xF000) >> 12) as u8
    }
}

impl HccParams {
    /// Pointer to the extended capabilities, bits 23:16.
    pub fn ext_cap_pointer(&self) -> (r: u8)
        ensures
            r == (self.bits / 0x1_0000) % 256,
    {
        let b = self.bits;
        assert((b & 0xFF_0000) >> 16 == (b / 0x1_0000) % 256) by (bit_vector);
        ((b & 0xFF_0000) >> 16) as u8
    }
}

/// The speed a port reports in bits 27:26.
pub open spec fn speed_of(code: u32) -> PortSpeed {
    if code == 0 {
        PortSpeed::FullSpeed
    } else if code == 1 {
        PortSpeed::LowSpeed
    } else if code == 2 {
        PortSpeed::HighSpeed
    } else {
        PortSpeed::Unknown
    }
}

/// The line state a port reports in bits 11:10.
pub open spec fn line_status_of(code: u32) -> LineStatus {
    if code == 0 {
        LineStatus::SE0
    } else if code == 1 {
        LineStatus::KState
    } else if code == 2 {
        LineStatus::JState
    } else {
        LineStatus::Undefined
    }
}

/// Whether every bit of `mask` is set in `bits`.
pub open spec fn has_bits(bits: u32, mask: u32) -> bool {
    bits & mask == mask
}

impl PortStatusControlFlags {
    pub fn speed(&self) -> (r: PortSpeed)
        ensures
            r == speed_of((self.bits / 0x400_0000) % 4),
    {
        let b = self.bits;
        assert((b & 0xC00_0000) >> 26 == (b / 0x400_0000) % 4) by (bit_vector);
        let code = (b & 0xC00_0000) >> 26;
        if code == 0 {
            PortSpeed::FullSpeed
        } else if code == 1 {
            PortSpeed::LowSpeed
        } else if code == 2 {
            PortSpeed::HighSpeed
        } else {
            PortSpeed::Unknown
        }
    }

    pub fn line_status(&self) -> (r: LineStatus)
        ensures
            r == line_status_of((self.bits / 0x400) % 4),
    {
        let b = self.bits;
        assert((b & 0xC00) >> 10 == (b / 0x400) % 4) by (bit_vector);
        let code = (b & 0xC00) >> 10;
        if code == 0 {
            LineStatus::SE0
        } else if code == 1 {
            LineStatus::KState
        } else if code == 2 {
            LineStatus::JState
        } else {
            LineStatus::Undefined
        }
    }

    /// Whether every bit of `mask` is set.
    pub fn contains(&self, mask: u32) -> (r: bool)
        ensures
            r == has_bits(self.bits, mask),
    {
        self.bits & mask == mask
    }
}

/// Where the registers of a controller are: the capability registers at
/// the base, the operational ones `cap_length` bytes after it.
#[derive(Debug, Clone, Copy, PartialEq, Eq)]
pub struct EhciRegisters {
    pub base_address: usize,
    pub operational_base: usize,
}

impl EhciRegisters {
    /// The layout of the controller at `base_address`, whose capability
    /// length register read `cap_length`.
    pub fn new(base_address: usize, cap_length: u8) -> (r: Self)
        ensures
            r.base_address == base_address,
            r.operational_base == wrapping_add(base_address, cap_length as usize),
    {
        EhciRegisters { base_address, operational_base: base_address.wrapping_add(cap_length as usize) }
    }

    pub fn hci_version(&self) -> (r: usize)
        ensures
            r == wrapping_add(self.base_address, EHCI_VERSION_OFFSET),
    {
        self.base_address.wrapping_add(EHCI_VERSION_OFFSET)
    }

    pub fn hcs_params(&self) -> (r: usize)
        ensures
            r == wrapping_add(self.base_address, EHCI_HCSPARAMS_OFFSET),
    {
        self.base_address.wrapping_add(EHCI_HCSPARAMS_OFFSET)
    }

    pub fn hcc_params(&self) -> (r: usize)
        ensures
            r == wrapping_add(self.base_address, EHCI_HCCPARAMS_OFFSET),
    {
        self.base_address.wrapping_add(EHCI_HCCPARAMS_OFFSET)
    }

    pub fn usbcmd(&self) -> (r: usize)
        ensures
            r == wrapping_add(self.operational_base, EHCI_USBCMD_OFFSET),
    {
        self.operational_base.wrapping_add(EHCI_USBCMD_OFFSET)
    }

    pub fn usbsts(&self) -> (r: usize)
        ensures
            r == wrapping_add(self.operational_base, EHCI_USBSTS_OFFSET),
    {
        self.operational_base.wrapping_add(EHCI_USBSTS_OFFSET)
    }

    pub fn usbintren(&self) -> (r: usize)
        ensures
            r == wrapping_add(self.operational_base, EHCI_USBINTREN_OFFSET),
    {
        self.operational_base.wrapping_add(EHCI_USBINTREN_OFFSET)
    }

    pub fn configflag(&self) -> (r: usize)
        ensures
            r == wrapping_add(self.operational_base, EHCI_CONFIGFLAG_OFFSET),
    {
        self.operational_base.wrapping_add(EHCI_CONFIGFLAG_OFFSET)
    }

    /// Address of the status and control register of port `port_num`
    /// (counted from 1): four bytes per port after the first.
    pub fn portsc(&self, port_num: u8) -> (r: usize)
        requires
            port_num >= 1,
        ensures
            r == wrapping_add(self.operational_base, (EHCI_PORTSC_BASE_OFFSET + 4 * (port_num - 1)) as usize),
    {
        let port_offset = EHCI_PORTSC_BASE_OFFSET + (port_num - 1) as usize * 4;
        self.operational_base.wrapping_add(port_offset)
    }
}

/// What the scan does with a port, by its status.
#[derive(Debug, Clone, Copy, PartialEq, Eq)]
pub enum PortScan {
    /// The connection changed: clear the change bit and read the port again.
    ClearConnectChange,
    /// No change, and a device is attached.
    AlreadyConnected,
    /// No change, and nothing is attached.
    Empty,
}

/// What a connection change turned out to be, read after it was cleared.
#[derive(Debug, Clone, Copy, PartialEq, Eq)]
pub enum PortChange {
    Connected,
    Removed,
}

pub fn port_scan_action(status: u32) -> (r: PortScan)
    ensures
        has_bits(status, PORT_CONNECT_STATUS_CHANGE) ==> r == PortScan::ClearConnectChange,
        !has_bits(status, PORT_CONNECT_STATUS_CHANGE) && has_bits(status, PORT_CURRENT_CONNECT_STATUS)
            ==> r == PortScan::AlreadyConnected,
        !has_bits(status, PORT_CONNECT_STATUS_CHANGE) && !has_bits(status, PORT_CURRENT_CONNECT_STATUS)
            ==> r == PortScan::Empty,
{
    if status & PORT_CONNECT_STATUS_CHANGE == PORT_CONNECT_STATUS_CHANGE {
        PortScan::ClearConnectChange
    } else if status & PORT_CURRENT_CONNECT_STATUS == PORT_CURRENT_CONNECT_STATUS {
        PortScan::AlreadyConnected
    } else {
        PortScan::Empty
    }
}

pub fn port_change(status: u32) -> (r: PortChange)
    ensures
        has_bits(status, PORT_CURRENT_CONNECT_STATUS) <==> r == PortChange::Connected,
{
    if status & PORT_CURRENT_CONNECT_STATUS == PORT_CURRENT_CONNECT_STATUS {
        PortChange::Connected
    } else {
        PortChange::Removed
    }
}

/// The other change bits set in a port's status, to be written back to
/// clear them; zero when there are none.
pub fn other_port_changes(status: u32) -> (r: u32)
    ensures
        r == status & PORT_OTHER_CHANGES,
{
    status & PORT_OTHER_CHANGES
}

/// Value written to CONFIGFLAG to route every port to this controller.
pub const CONFIGFLAG_ROUTE_ALL: u32 = 1;

/// Whether a controller reset is still going on: the reset bit of the
/// command register still reads 1.
pub fn reset_in_progress(usbcmd: u32) -> (r: bool)
    ensures
        r == (usbcmd & CMD_HOST_CONTROLLER_RESET != 0),
{
    usbcmd & CMD_HOST_CONTROLLER_RESET != 0
}

/// The command register value that starts the controller: the run bit set,
/// every other bit kept.
pub fn run_command(usbcmd: u32) -> (r: u32)
    ensures
        r == usbcmd | CMD_RUN_STOP,
{
    usbcmd | CMD_RUN_STOP
}

/// Whether the controller is still halted.
pub fn halted(usbsts: u32) -> (r: bool)
    ensures
        r == (usbsts & STS_HC_HALTED != 0),
{
    usbsts & STS_HC_HALTED != 0
}

/// Whether a port reset is still going on.
pub fn port_reset_in_progress(portsc: u32) -> (r: bool)
    ensures
        r == (portsc & PORT_RESET != 0),
{
    portsc & PORT_RESET != 0
}

/// The command register value that enables the asynchronous schedule,
/// every other bit kept.
pub fn async_schedule_command(usbcmd: u32) -> (r: u32)
    ensures
        r == usbcmd | CMD_ASYNCHRONOUS_SCHEDULE_ENABLE,
{
    usbcmd | CMD_ASYNCHRONOUS_SCHEDULE_ENABLE
}

/// The value that starts a reset of a port with status `status`.
pub fn port_reset_value(status: u32) -> (r: u32)
    ensures
        r == status | PORT_RESET,
        has_bits(r, PORT_RESET),
{
    let r = status | PORT_RESET;
    assert((status | 0x10u32) & 0x10u32 == 0x10u32) by (bit_vector);
    r
}

/// How bring-up continues after a port reset.
#[derive(Debug, Clone, Copy, PartialEq, Eq)]
pub enum NewDeviceStep {
    /// The port did not come up enabled.
    NotEnabled,
    /// The port belongs to a companion controller.
    Companion,
    /// Enumerate the device at `speed` under `address`.
    Enumerate { speed: PortSpeed, address: u8 },
}

pub fn new_device_step(status_after_reset: u32) -> (r: NewDeviceStep)
    ensures
        !has_bits(status_after_reset, PORT_ENABLED_DISABLED) ==> r == NewDeviceStep::NotEnabled,
        has_bits(status_after_reset, PORT_ENABLED_DISABLED) && has_bits(status_after_reset, PORT_OWNER)
            ==> r == NewDeviceStep::Companion,
        has_bits(status_after_reset, PORT_ENABLED_DISABLED) && !has_bits(status_after_reset, PORT_OWNER)
            ==> r == (NewDeviceStep::Enumerate {
                speed: speed_of((status_after_reset / 0x400_0000) % 4),
                address: TEMPORARY_DEVICE_ADDRESS,
            }),
{
    let flags = PortStatusControlFlags { bits: status_after_reset };
    if !flags.contains(PORT_ENABLED_DISABLED) {
        return NewDeviceStep::NotEnabled;
    }
    let speed = flags.speed();
    if flags.contains(PORT_OWNER) {
        return NewDeviceStep::Companion;
    }
    NewDeviceStep::Enumerate { speed, address: TEMPORARY_DEVICE_ADDRESS }
}

#[derive(Debug, Clone, Copy, PartialEq, Eq)]
pub enum TransferError {
    Timeout,
    Stall,
    Nak,
    DataToggleError,
    Babble,
    TransactionError,
}

/// The kind of request, bits 6:5 of `bmRequestType`.
#[derive(Debug, Clone, Copy, PartialEq, Eq)]
pub enum RequestKind {
    Standard,
    Class,
    Vendor,
    Reserved,
}

pub open spec fn request_kind_of(request_type: u8) -> RequestKind {
    let code = (request_type / 32) % 4;
    if code == 0 {
        RequestKind::Standard
    } else if code == 1 {
        RequestKind::Class
    } else if code == 2 {
        RequestKind::Vendor
    } else {
        RequestKind::Reserved
    }
}

pub fn request_kind(request_type: u8) -> (r: RequestKind)
    ensures
        r == request_kind_of(request_type),
{
    let t = request_type & 0x60;
    assert(request_type & 0x60 == ((request_type / 32) % 4) * 32) by (bit_vector);
    if t == 0x00 {
        RequestKind::Standard
    } else if t == 0x20 {
        RequestKind::Class
    } else if t == 0x40 {
        RequestKind::Vendor
    } else {
        RequestKind::Reserved
    }
}

/// Whether a request moves data from the device (bit 7 of `bmRequestType`).
pub open spec fn is_in_request(request_type: u8) -> bool {
    request_type >= 0x80
}

/// Reads the direction bit of `bmRequestType`.
fn direction_in(request_type: u8) -> (r: bool)
    ensures
        r == is_in_request(request_type),
{
    proof { crate::bits::lemma_high_bit(request_type); }
    request_type & 0x80 != 0
}

/// The 8-byte SETUP packet: request type, request, then value, index and
/// length, each little-endian.
pub open spec fn setup_bytes(request_type: u8, request: u8, value: u16, index: u16, length: u16) -> Seq<u8> {
    seq![request_type, request] + le16_bytes(value) + le16_bytes(index) + le16_bytes(length)
}

pub fn setup_packet(request_type: u8, request: u8, value: u16, index: u16, length: u16) -> (r: [u8; 8])
    ensures
        r@ == setup_bytes(request_type, request, value, index, length),
{
    let r: [u8; 8] = [
        request_type,
        request,
        (value & 0xFF) as u8,
        (value >> 8) as u8,
        (index & 0xFF) as u8,
        (index >> 8) as u8,
        (length & 0xFF) as u8,
        (length >> 8) as u8,
    ];
    assert(value & 0xFF == value % 0x100 && value >> 8 == value / 0x100) by (bit_vector);
    assert(index & 0xFF == index % 0x100 && index >> 8 == index / 0x100) by (bit_vector);
    assert(length & 0xFF == length % 0x100 && length >> 8 == length / 0x100) by (bit_vector);
    assert(r@ =~= setup_bytes(request_type, request, value, index, length));
    r
}

/// What a finished control transfer returns, given the status that ended
/// the wait: an error bit fails it; an IN transfer whose data does not fit
/// the caller's buffer fails too; otherwise the requested length moved.
pub open spec fn control_outcome(status: u32, is_in: bool, length: u16, has_buffer: bool, buffer_size: usize) -> Result<usize, TransferError> {
    if status & STS_ERRORS != 0 {
        Err(TransferError::TransactionError)
    } else if is_in && has_buffer && length > 0 && length > buffer_size {
        Err(TransferError::TransactionError)
    } else {
        Ok(length as usize)
    }
}

/// A control transfer in progress: the request, and how many more status
/// polls it waits for.
#[derive(Debug, Clone, Copy, PartialEq, Eq)]
pub struct ControlTransfer {
    pub device_address: u8,
    pub request_type: u8,
    pub request: u8,
    pub value: u16,
    pub index: u16,
    pub length: u16,
    pub has_buffer: bool,
    pub buffer_size: usize,
    pub remaining_polls: u32,
}

/// What to do after a status poll.
#[derive(Debug, Clone, Copy, PartialEq, Eq)]
pub enum ControlStep {
    /// Wait, then read the status register again.
    Poll,
    /// Done: write `clear` back to the status register (when it is not
    /// zero) and return `result`.
    Finish { clear: u32, result: Result<usize, TransferError> },
}

impl ControlTransfer {
    /// Starts a control transfer, waiting at most [`CONTROL_TRANSFER_POLLS`] polls.
    pub fn new(
        device_address: u8,
        request_type: u8,
        request: u8,
        value: u16,
        index: u16,
        length: u16,
        has_buffer: bool,
        buffer_size: usize,
    ) -> (r: Self)
        ensures
            r == (ControlTransfer {
                device_address,
                request_type,
                request,
                value,
                index,
                length,
                has_buffer,
                buffer_size,
                remaining_polls: CONTROL_TRANSFER_POLLS,
            }),
    {
        ControlTransfer {
            device_address,
            request_type,
            request,
            value,
            index,
            length,
            has_buffer,
            buffer_size,
            remaining_polls: CONTROL_TRANSFER_POLLS,
        }
    }

    pub fn setup(&self) -> (r: [u8; 8])
        ensures
            r@ == setup_bytes(self.request_type, self.request, self.value, self.index, self.length),
    {
        setup_packet(self.request_type, self.request, self.value, self.index, self.length)
    }

    pub fn is_in(&self) -> (r: bool)
        ensures
            r == is_in_request(self.request_type),
    {
        direction_in(self.request_type)
    }

    /// Whether the caller's data is copied out before the transfer starts.
    pub fn copies_out(&self) -> (r: bool)
        ensures
            r == (self.length > 0 && self.has_buffer && !is_in_request(self.request_type)),
    {
        self.length > 0 && self.has_buffer && !direction_in(self.request_type)
    }

    /// Takes the status register value just read: keep polling while no
    /// completion bit is set and polls remain; a wait that used up its polls
    /// times out.
    pub fn step(&mut self, status: u32) -> (r: ControlStep)
        ensures
            final(self).remaining_polls <= old(self).remaining_polls,
            status & STS_COMPLETION == 0 && old(self).remaining_polls > 0 ==> {
                &&& r == ControlStep::Poll
                &&& *final(self) == (ControlTransfer { remaining_polls: (old(self).remaining_polls - 1) as u32, ..*old(self) })
            },
            !(status & STS_COMPLETION == 0 && old(self).remaining_polls > 0) ==> *final(self) == *old(self),
            !(status & STS_COMPLETION == 0 && old(self).remaining_polls > 0) && old(self).remaining_polls == 0
                ==> r == (ControlStep::Finish { clear: 0, result: Err(TransferError::Timeout) }),
            !(status & STS_COMPLETION == 0 && old(self).remaining_polls > 0) && old(self).remaining_polls > 0
                ==> r == (ControlStep::Finish {
                    clear: status & STS_COMPLETION,
                    result: control_outcome(
                        status,
                        is_in_request(old(self).request_type),
                        old(self).length,
                        old(self).has_buffer,
                        old(self).buffer_size,
                    ),
                }),
    {
        if status & STS_COMPLETION == 0 && self.remaining_polls > 0 {
            self.remaining_polls = self.remaining_polls - 1;
            return ControlStep::Poll;
        }
        if self.remaining_polls == 0 {
            return ControlStep::Finish { clear: 0, result: Err(TransferError::Timeout) };
        }
        let clear = status & STS_COMPLETION;
        if status & STS_ERRORS != 0 {
            return ControlStep::Finish { clear, result: Err(TransferError::TransactionError) };
        }
        let transferred = self.length as usize;
        if direction_in(self.request_type) && self.has_buffer && transferred > 0 && transferred > self.buffer_size {
            return ControlStep::Finish { clear, result: Err(TransferError::TransactionError) };
        }
        ControlStep::Finish { clear, result: Ok(transferred) }
    }
}

} // verus!
