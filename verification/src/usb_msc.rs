//! USB mass storage over Bulk-Only Transport: the command and status
//! wrappers and their wire encoding, the SCSI commands they carry, the
//! control requests of device set-up, and the decisions of each exchange.
//! The transfers themselves are made by the caller.
use vstd::prelude::*;
use crate::codec::{be_value, lemma_be_value_four, le32_bytes, le32_value, be32_bytes, be16_bytes, u32_to_le, u32_to_be, u16_to_be, u32_from_le, u16_from_le, le16_value};
use crate::ehci::{setup_packet, setup_bytes, is_in_request};

verus! {

pub const REQ_TYPE_STANDARD_DEVICE_IN: u8 = 0x80;
pub const REQ_TYPE_STANDARD_DEVICE_OUT: u8 = 0x00;
pub const REQ_TYPE_CLASS_INTERFACE_IN: u8 = 0xA1;
pub const REQ_TYPE_CLASS_INTERFACE_OUT: u8 = 0x21;

pub const USB_REQ_SET_ADDRESS: u8 = 0x05;
pub const USB_REQ_GET_DESCRIPTOR: u8 = 0x06;
pub const USB_REQ_SET_CONFIGURATION: u8 = 0x09;

pub const DESC_TYPE_DEVICE: u8 = 0x01;
pub const DESC_TYPE_CONFIGURATION: u8 = 0x02;

pub const MSC_REQ_RESET: u8 = 0xFF;
pub const MSC_REQ_GET_MAX_LUN: u8 = 0xFE;

pub const MSC_CMD_TEST_UNIT_READY: u8 = 0x00;
pub const MSC_CMD_INQUIRY: u8 = 0x12;
pub const MSC_CMD_READ_CAPACITY_10: u8 = 0x25;
pub const MSC_CMD_READ_10: u8 = 0x28;

pub const MSC_STATUS_COMMAND_PASSED: u8 = 0x00;
pub const MSC_STATUS_COMMAND_FAILED: u8 = 0x01;
pub const MSC_STATUS_PHASE_ERROR: u8 = 0x02;

pub const CBW_FLAG_DIRECTION_OUT: u8 = 0x00;
pub const CBW_FLAG_DIRECTION_IN: u8 = 0x80;

pub const CBW_SIGNATURE: u32 = 0x43425355;
pub const CSW_SIGNATURE: u32 = 0x53425355;
pub const CBW_SIZE: usize = 31;
pub const CSW_SIZE: usize = 13;
/// Tag a fresh command wrapper carries.
pub const DEFAULT_CBW_TAG: u32 = 0x12345678;
/// Size of the transfer buffer that reads go through.
pub const IO_BUFFER_SIZE: u32 = 512;
/// Address the device is given during set-up.
pub const DEVICE_ADDRESS: u8 = 7;
/// Configuration selected during set-up.
pub const CONFIGURATION_VALUE: u8 = 1;
/// Bit of the controller status register that signals an attached device.
pub const STATUS_DEVICE_CONNECTED: u32 = 1;

/// Command Block Wrapper.
#[derive(Debug, Clone, Copy, PartialEq, Eq)]
pub struct CommandBlockWrapper {
    pub dcbw_signature: u32,
    pub dcbw_tag: u32,
    pub dcbw_data_transfer_length: u32,
    pub bmcbw_flags: u8,
    pub bcbw_lun: u8,
    pub b_cbw_length: u8,
    pub cbw_cb: [u8; 16],
}

/// Command Status Wrapper.
#[derive(Debug, Clone, Copy, PartialEq, Eq)]
pub struct CommandStatusWrapper {
    pub dcsv_signature: u32,
    pub dcsv_tag: u32,
    pub dcsv_data_residue: u32,
    pub bcs_status: u8,
}

/// The 31 bytes of a command wrapper on the wire, multi-byte fields
/// little-endian.
pub open spec fn cbw_bytes(c: CommandBlockWrapper) -> Seq<u8> {
    le32_bytes(c.dcbw_signature) + le32_bytes(c.dcbw_tag) + le32_bytes(c.dcbw_data_transfer_length)
        + seq![c.bmcbw_flags, c.bcbw_lun, c.b_cbw_length] + c.cbw_cb@
}

/// The status wrapper that 13 bytes on the wire encode.
pub open spec fn csw_of(b: Seq<u8>) -> CommandStatusWrapper {
    CommandStatusWrapper {
        dcsv_signature: le32_value(b[0], b[1], b[2], b[3]),
        dcsv_tag: le32_value(b[4], b[5], b[6], b[7]),
        dcsv_data_residue: le32_value(b[8], b[9], b[10], b[11]),
        bcs_status: b[12],
    }
}

/// A command block of `len` bytes: `prefix`, then zeros up to 16 bytes.
pub open spec fn command_block(prefix: Seq<u8>) -> Seq<u8> {
    prefix + Seq::new((16 - prefix.len()) as nat, |i: int| 0u8)
}

impl CommandBlockWrapper {
    /// A wrapper with the signature, the default tag and nothing else set.
    pub fn new() -> (r: Self)
        ensures
            r.dcbw_signature == CBW_SIGNATURE,
            r.dcbw_tag == DEFAULT_CBW_TAG,
            r.dcbw_data_transfer_length == 0,
            r.bmcbw_flags == 0,
            r.bcbw_lun == 0,
            r.b_cbw_length == 0,
            r.cbw_cb@ == command_block(Seq::empty()),
    {
        let r = CommandBlockWrapper {
            dcbw_signature: CBW_SIGNATURE,
            dcbw_tag: DEFAULT_CBW_TAG,
            dcbw_data_transfer_length: 0,
            bmcbw_flags: 0,
            bcbw_lun: 0,
            b_cbw_length: 0,
            cbw_cb: [0u8; 16],
        };
        assert(r.cbw_cb@ =~= command_block(Seq::empty()));
        r
    }

    /// The wrapper's bytes on the wire.
    pub fn to_bytes(&self) -> (r: [u8; 31])
        ensures
            r@ == cbw_bytes(*self),
    {
        let s = u32_to_le(self.dcbw_signature);
        let t = u32_to_le(self.dcbw_tag);
        let l = u32_to_le(self.dcbw_data_transfer_length);
        let c = self.cbw_cb;
        let r: [u8; 31] = [
            s[0], s[1], s[2], s[3], t[0], t[1], t[2], t[3], l[0], l[1], l[2], l[3],
            self.bmcbw_flags, self.bcbw_lun, self.b_cbw_length,
            c[0], c[1], c[2], c[3], c[4], c[5], c[6], c[7],
            c[8], c[9], c[10], c[11], c[12], c[13], c[14], c[15],
        ];
        assert(r@ =~= cbw_bytes(*self));
        r
    }
}

impl CommandStatusWrapper {
    /// A wrapper with the signature and nothing else set.
    pub fn new() -> (r: Self)
        ensures
            r == (CommandStatusWrapper { dcsv_signature: CSW_SIGNATURE, dcsv_tag: 0, dcsv_data_residue: 0, bcs_status: 0 }),
    {
        CommandStatusWrapper { dcsv_signature: CSW_SIGNATURE, dcsv_tag: 0, dcsv_data_residue: 0, bcs_status: 0 }
    }

    /// The wrapper that the 13 bytes received encode.
    pub fn from_bytes(b: &[u8; 13]) -> (r: Self)
        ensures
            r == csw_of(b@),
    {
        CommandStatusWrapper {
            dcsv_signature: u32_from_le(b[0], b[1], b[2], b[3]),
            dcsv_tag: u32_from_le(b[4], b[5], b[6], b[7]),
            dcsv_data_residue: u32_from_le(b[8], b[9], b[10], b[11]),
            bcs_status: b[12],
        }
    }

    /// Whether the wrapper carries the CSW signature.
    pub fn signature_valid(&self) -> (r: bool)
        ensures
            r == (self.dcsv_signature == CSW_SIGNATURE),
    {
        self.dcsv_signature == CSW_SIGNATURE
    }
}

/// How a command ended, by the status byte of its status wrapper.
#[derive(Debug, Clone, Copy, PartialEq, Eq)]
pub enum CommandOutcome {
    Passed,
    Failed,
    PhaseError,
    Unexpected(u8),
}

pub open spec fn outcome_of(status: u8) -> CommandOutcome {
    if status == MSC_STATUS_COMMAND_PASSED {
        CommandOutcome::Passed
    } else if status == MSC_STATUS_COMMAND_FAILED {
        CommandOutcome::Failed
    } else if status == MSC_STATUS_PHASE_ERROR {
        CommandOutcome::PhaseError
    } else {
        CommandOutcome::Unexpected(status)
    }
}

pub fn command_outcome(csw: &CommandStatusWrapper) -> (r: CommandOutcome)
    ensures
        r == outcome_of(csw.bcs_status),
{
    if csw.bcs_status == MSC_STATUS_COMMAND_PASSED {
        CommandOutcome::Passed
    } else if csw.bcs_status == MSC_STATUS_COMMAND_FAILED {
        CommandOutcome::Failed
    } else if csw.bcs_status == MSC_STATUS_PHASE_ERROR {
        CommandOutcome::PhaseError
    } else {
        CommandOutcome::Unexpected(csw.bcs_status)
    }
}

/// Whether a command succeeded: its wrapper went out, its status came
/// back, and the status says it passed.
pub fn command_succeeded(cbw_sent: bool, csw: Option<CommandStatusWrapper>) -> (r: bool)
    ensures
        r == (cbw_sent && csw is Some && csw->0.bcs_status == MSC_STATUS_COMMAND_PASSED),
{
    if !cbw_sent {
        return false;
    }
    match csw {
        None => false,
        Some(c) => match command_outcome(&c) {
            CommandOutcome::Passed => true,
            _ => false,
        },
    }
}

/// The status wrapper expected back for `cbw`: the signature and its tag.
pub fn expected_status(cbw: &CommandBlockWrapper) -> (r: CommandStatusWrapper)
    ensures
        r == (CommandStatusWrapper { dcsv_signature: CSW_SIGNATURE, dcsv_tag: cbw.dcbw_tag, dcsv_data_residue: 0, bcs_status: 0 }),
{
    let mut csw = CommandStatusWrapper::new();
    csw.dcsv_tag = cbw.dcbw_tag;
    csw
}

/// TEST UNIT READY: tag `0x1234`, direction in, no data, 6-byte command.
pub fn test_unit_ready_cbw() -> (r: CommandBlockWrapper)
    ensures
        r.dcbw_signature == CBW_SIGNATURE,
        r.dcbw_tag == 0x1234,
        r.dcbw_data_transfer_length == 0,
        r.bmcbw_flags == CBW_FLAG_DIRECTION_IN,
        r.bcbw_lun == 0,
        r.b_cbw_length == 6,
        r.cbw_cb@ == command_block(seq![MSC_CMD_TEST_UNIT_READY]),
{
    let mut cbw = CommandBlockWrapper::new();
    cbw.dcbw_tag = 0x1234;
    cbw.bmcbw_flags = CBW_FLAG_DIRECTION_IN;
    cbw.b_cbw_length = 6;
    cbw.cbw_cb[0] = MSC_CMD_TEST_UNIT_READY;
    assert(cbw.cbw_cb@ =~= command_block(seq![MSC_CMD_TEST_UNIT_READY]));
    cbw
}

/// Length of the standard INQUIRY data.
pub const INQUIRY_DATA_LEN: u32 = 36;

/// INQUIRY: tag `0x5678`, 36 bytes in, 6-byte command whose allocation
/// length is big-endian in bytes 4 and 5.
pub fn inquiry_cbw() -> (r: CommandBlockWrapper)
    ensures
        r.dcbw_signature == CBW_SIGNATURE,
        r.dcbw_tag == 0x5678,
        r.dcbw_data_transfer_length == INQUIRY_DATA_LEN,
        r.bmcbw_flags == CBW_FLAG_DIRECTION_IN,
        r.bcbw_lun == 0,
        r.b_cbw_length == 6,
        r.cbw_cb@ == command_block(seq![MSC_CMD_INQUIRY, 0, 0, 0, 0, 36]),
{
    let mut cbw = CommandBlockWrapper::new();
    cbw.dcbw_tag = 0x5678;
    cbw.bmcbw_flags = CBW_FLAG_DIRECTION_IN;
    cbw.dcbw_data_transfer_length = INQUIRY_DATA_LEN;
    cbw.b_cbw_length = 6;
    cbw.cbw_cb[0] = MSC_CMD_INQUIRY;
    cbw.cbw_cb[4] = 0;
    cbw.cbw_cb[5] = 36;
    assert(cbw.cbw_cb@ =~= command_block(seq![MSC_CMD_INQUIRY, 0, 0, 0, 0, 36]));
    cbw
}

/// Length of the READ CAPACITY (10) data.
pub const CAPACITY_DATA_LEN: u32 = 8;

/// READ CAPACITY (10): tag `0x9ABC`, 8 bytes in, 10-byte command.
pub fn read_capacity_10_cbw() -> (r: CommandBlockWrapper)
    ensures
        r.dcbw_signature == CBW_SIGNATURE,
        r.dcbw_tag == 0x9ABC,
        r.dcbw_data_transfer_length == CAPACITY_DATA_LEN,
        r.bmcbw_flags == CBW_FLAG_DIRECTION_IN,
        r.bcbw_lun == 0,
        r.b_cbw_length == 10,
        r.cbw_cb@ == command_block(seq![MSC_CMD_READ_CAPACITY_10]),
{
    let mut cbw = CommandBlockWrapper::new();
    cbw.dcbw_tag = 0x9ABC;
    cbw.bmcbw_flags = CBW_FLAG_DIRECTION_IN;
    cbw.dcbw_data_transfer_length = CAPACITY_DATA_LEN;
    cbw.b_cbw_length = 10;
    cbw.cbw_cb[0] = MSC_CMD_READ_CAPACITY_10;
    assert(cbw.cbw_cb@ =~= command_block(seq![MSC_CMD_READ_CAPACITY_10]));
    cbw
}

/// The capacity data: the last block address and the block size, both
/// big-endian.
pub open spec fn capacity_of(b: Seq<u8>) -> (u32, u32) {
    (le32_value(b[3], b[2], b[1], b[0]), le32_value(b[7], b[6], b[5], b[4]))
}

/// The capacity data are two big-endian numbers: the last block address in
/// bytes 0 to 3, the block size in bytes 4 to 7.
pub proof fn law_capacity_is_big_endian(b: Seq<u8>)
    requires
        b.len() == 8,
    ensures
        capacity_of(b).0 == be_value(b.subrange(0, 4)),
        capacity_of(b).1 == be_value(b.subrange(4, 8)),
{
    let hi = b.subrange(0, 4);
    let lo = b.subrange(4, 8);
    lemma_be_value_four(hi);
    lemma_be_value_four(lo);
    assert(hi[0] == b[0] && hi[1] == b[1] && hi[2] == b[2] && hi[3] == b[3]);
    assert(lo[0] == b[4] && lo[1] == b[5] && lo[2] == b[6] && lo[3] == b[7]);
}

pub fn parse_capacity(b: &[u8; 8]) -> (r: (u32, u32))
    ensures
        r == capacity_of(b@),
        r.0 == be_value(b@.subrange(0, 4)),
        r.1 == be_value(b@.subrange(4, 8)),
{
    proof { law_capacity_is_big_endian(b@); }
    (u32_from_le(b[3], b[2], b[1], b[0]), u32_from_le(b[7], b[6], b[5], b[4]))
}

/// READ (10) of `block_count` blocks of `block_size` bytes at `lba`: tag
/// `0xDBAF`, direction in, 10-byte command with the address and count
/// big-endian. Refused (`None`) when the data would not fit the transfer
/// buffer.
pub fn read_10_cbw(lba: u32, block_size: u32, block_count: u16) -> (r: Option<CommandBlockWrapper>)
    requires
        block_size * block_count <= u32::MAX,
    ensures
        block_size * block_count > IO_BUFFER_SIZE <==> r is None,
        r matches Some(c) ==> {
            &&& c.dcbw_signature == CBW_SIGNATURE
            &&& c.dcbw_tag == 0xDBAF
            &&& c.dcbw_data_transfer_length == block_size * block_count
            &&& c.bmcbw_flags == CBW_FLAG_DIRECTION_IN
            &&& c.bcbw_lun == 0
            &&& c.b_cbw_length == 10
            &&& c.cbw_cb@ == command_block(seq![MSC_CMD_READ_10, 0] + be32_bytes(lba) + seq![0u8] + be16_bytes(block_count))
        },
{
    let transfer_length: u32 = block_size * block_count as u32;
    if transfer_length > IO_BUFFER_SIZE {
        return None;
    }
    let a = u32_to_be(lba);
    let n = u16_to_be(block_count);
    let mut cbw = CommandBlockWrapper::new();
    cbw.dcbw_tag = 0xDBAF;
    cbw.bmcbw_flags = CBW_FLAG_DIRECTION_IN;
    cbw.dcbw_data_transfer_length = transfer_length;
    cbw.b_cbw_length = 10;
    cbw.cbw_cb[0] = MSC_CMD_READ_10;
    cbw.cbw_cb[1] = 0;
    cbw.cbw_cb[2] = a[0];
    cbw.cbw_cb[3] = a[1];
    cbw.cbw_cb[4] = a[2];
    cbw.cbw_cb[5] = a[3];
    cbw.cbw_cb[6] = 0;
    cbw.cbw_cb[7] = n[0];
    cbw.cbw_cb[8] = n[1];
    assert(cbw.cbw_cb@ =~= command_block(seq![MSC_CMD_READ_10, 0] + be32_bytes(lba) + seq![0u8] + be16_bytes(block_count)));
    Some(cbw)
}

/// Whether the data phase of `cbw` moves data from the device.
pub fn data_phase_in(cbw: &CommandBlockWrapper) -> (r: bool)
    ensures
        r == (cbw.bmcbw_flags >= 0x80),
{
    let f = cbw.bmcbw_flags;
    proof { crate::bits::lemma_high_bit(f); }
    f & 0x80 != 0
}

/// Whether the controller's status register shows an attached device.
pub fn device_connected(status: u32) -> (r: bool)
    ensures
        r == (status & STATUS_DEVICE_CONNECTED != 0),
{
    status & STATUS_DEVICE_CONNECTED != 0
}

/// A control request on endpoint zero.
#[derive(Debug, Clone, Copy, PartialEq, Eq)]
pub struct ControlRequest {
    pub request_type: u8,
    pub request: u8,
    pub value: u16,
    pub index: u16,
    pub length: u16,
}

/// The data stage of a control request.
#[derive(Debug, Clone, Copy, PartialEq, Eq)]
pub enum DataStage {
    NoData,
    In(u16),
    Out(u16),
}

/// How a control request is carried out: the SETUP packet, the data stage,
/// and the direction of the zero-length status stage (opposite to the data).
#[derive(Debug, Clone, Copy, PartialEq, Eq)]
pub struct ControlPlan {
    pub setup: [u8; 8],
    pub data: DataStage,
    pub status_in: bool,
}

pub fn control_plan(req: &ControlRequest) -> (r: ControlPlan)
    ensures
        r.setup@ == setup_bytes(req.request_type, req.request, req.value, req.index, req.length),
        r.data == (if req.length == 0 {
            DataStage::NoData
        } else if is_in_request(req.request_type) {
            DataStage::In(req.length)
        } else {
            DataStage::Out(req.length)
        }),
        r.status_in == !is_in_request(req.request_type),
{
    let setup = setup_packet(req.request_type, req.request, req.value, req.index, req.length);
    let t = req.request_type;
    proof { crate::bits::lemma_high_bit(t); }
    let is_in = t & 0x80 != 0;
    let data = if req.length == 0 {
        DataStage::NoData
    } else if is_in {
        DataStage::In(req.length)
    } else {
        DataStage::Out(req.length)
    };
    ControlPlan { setup, data, status_in: !is_in }
}

/// The mass-storage reset request.
pub fn msc_reset_request() -> (r: ControlRequest)
    ensures
        r == (ControlRequest { request_type: REQ_TYPE_CLASS_INTERFACE_OUT, request: MSC_REQ_RESET, value: 0, index: 0, length: 0 }),
{
    ControlRequest { request_type: REQ_TYPE_CLASS_INTERFACE_OUT, request: MSC_REQ_RESET, value: 0, index: 0, length: 0 }
}

/// The request for the highest logical unit number: one byte in.
pub fn msc_get_max_lun_request() -> (r: ControlRequest)
    ensures
        r == (ControlRequest { request_type: REQ_TYPE_CLASS_INTERFACE_IN, request: MSC_REQ_GET_MAX_LUN, value: 0, index: 0, length: 1 }),
{
    ControlRequest { request_type: REQ_TYPE_CLASS_INTERFACE_IN, request: MSC_REQ_GET_MAX_LUN, value: 0, index: 0, length: 1 }
}

/// The highest logical unit number: the byte received, or zero when the
/// request failed.
pub fn msc_get_max_lun(request_ok: bool, received: u8) -> (r: u8)
    ensures
        r == (if request_ok { received } else { 0 }),
{
    if request_ok { received } else { 0 }
}

/// Stage of device set-up.
#[derive(Debug, Clone, Copy, PartialEq, Eq)]
pub enum ConfigureStage {
    DeviceDescriptor,
    SetAddress,
    ConfigurationHeader,
    FullConfiguration { length: u16 },
    SetConfiguration,
    Done(bool),
}

/// The request that a set-up stage makes; none once done.
pub open spec fn stage_request(stage: ConfigureStage) -> Option<ControlRequest> {
    match stage {
        ConfigureStage::DeviceDescriptor => Some(ControlRequest {
            request_type: REQ_TYPE_STANDARD_DEVICE_IN,
            request: USB_REQ_GET_DESCRIPTOR,
            value: 0x0100,
            index: 0,
            length: 18,
        }),
        ConfigureStage::SetAddress => Some(ControlRequest {
            request_type: REQ_TYPE_STANDARD_DEVICE_OUT,
            request: USB_REQ_SET_ADDRESS,
            value: DEVICE_ADDRESS as u16,
            index: 0,
            length: 0,
        }),
        ConfigureStage::ConfigurationHeader => Some(ControlRequest {
            request_type: REQ_TYPE_STANDARD_DEVICE_IN,
            request: USB_REQ_GET_DESCRIPTOR,
            value: 0x0200,
            index: 0,
            length: 9,
        }),
        ConfigureStage::FullConfiguration { length } => Some(ControlRequest {
            request_type: REQ_TYPE_STANDARD_DEVICE_IN,
            request: USB_REQ_GET_DESCRIPTOR,
            value: 0x0200,
            index: 0,
            length,
        }),
        ConfigureStage::SetConfiguration => Some(ControlRequest {
            request_type: REQ_TYPE_STANDARD_DEVICE_OUT,
            request: USB_REQ_SET_CONFIGURATION,
            value: CONFIGURATION_VALUE as u16,
            index: 0,
            length: 0,
        }),
        ConfigureStage::Done(_) => None,
    }
}

pub fn configure_request(stage: ConfigureStage) -> (r: Option<ControlRequest>)
    ensures
        r == stage_request(stage),
{
    match stage {
        ConfigureStage::DeviceDescriptor => Some(ControlRequest {
            request_type: REQ_TYPE_STANDARD_DEVICE_IN,
            request: USB_REQ_GET_DESCRIPTOR,
            value: 0x0100,
            index: 0,
            length: 18,
        }),
        ConfigureStage::SetAddress => Some(ControlRequest {
            request_type: REQ_TYPE_STANDARD_DEVICE_OUT,
            request: USB_REQ_SET_ADDRESS,
            value: DEVICE_ADDRESS as u16,
            index: 0,
            length: 0,
        }),
        ConfigureStage::ConfigurationHeader => Some(ControlRequest {
            request_type: REQ_TYPE_STANDARD_DEVICE_IN,
            request: USB_REQ_GET_DESCRIPTOR,
            value: 0x0200,
            index: 0,
            length: 9,
        }),
        ConfigureStage::FullConfiguration { length } => Some(ControlRequest {
            request_type: REQ_TYPE_STANDARD_DEVICE_IN,
            request: USB_REQ_GET_DESCRIPTOR,
            value: 0x0200,
            index: 0,
            length,
        }),
        ConfigureStage::SetConfiguration => Some(ControlRequest {
            request_type: REQ_TYPE_STANDARD_DEVICE_OUT,
            request: USB_REQ_SET_CONFIGURATION,
            value: CONFIGURATION_VALUE as u16,
            index: 0,
            length: 0,
        }),
        ConfigureStage::Done(_) => None,
    }
}

/// The stage after `stage`, given whether its request succeeded and, for
/// the configuration header, the descriptor bytes received: a failed
/// request ends set-up unsuccessfully, and so does a configuration whose
/// total length (little-endian at bytes 2 and 3) is outside 9 to 256.
pub open spec fn next_stage(stage: ConfigureStage, ok: bool, descriptor: Seq<u8>) -> ConfigureStage {
    match stage {
        ConfigureStage::Done(done) => ConfigureStage::Done(done),
        _ => if !ok {
            ConfigureStage::Done(false)
        } else {
            match stage {
                ConfigureStage::DeviceDescriptor => ConfigureStage::SetAddress,
                ConfigureStage::SetAddress => ConfigureStage::ConfigurationHeader,
                ConfigureStage::ConfigurationHeader => {
                    let total = le16_value(descriptor[2], descriptor[3]);
                    if total < 9 || total > 256 {
                        ConfigureStage::Done(false)
                    } else {
                        ConfigureStage::FullConfiguration { length: total }
                    }
                },
                ConfigureStage::FullConfiguration { .. } => ConfigureStage::SetConfiguration,
                _ => ConfigureStage::Done(true),
            }
        },
    }
}

pub fn configure_next(stage: ConfigureStage, ok: bool, descriptor: &[u8]) -> (r: ConfigureStage)
    requires
        stage == ConfigureStage::ConfigurationHeader && ok ==> descriptor@.len() >= 4,
    ensures
        r == next_stage(stage, ok, descriptor@),
{
    match stage {
        ConfigureStage::Done(done) => ConfigureStage::Done(done),
        _ => if !ok {
            ConfigureStage::Done(false)
        } else {
            match stage {
                ConfigureStage::DeviceDescriptor => ConfigureStage::SetAddress,
                ConfigureStage::SetAddress => ConfigureStage::ConfigurationHeader,
                ConfigureStage::ConfigurationHeader => {
                    let total = u16_from_le(descriptor[2], descriptor[3]);
                    if total < 9 || total > 256 {
                        ConfigureStage::Done(false)
                    } else {
                        ConfigureStage::FullConfiguration { length: total }
                    }
                },
                ConfigureStage::FullConfiguration { .. } => ConfigureStage::SetConfiguration,
                _ => ConfigureStage::Done(true),
            }
        },
    }
}

} // verus!
