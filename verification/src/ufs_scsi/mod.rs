//! UFS storage stack whose SCSI layer builds real command descriptor blocks:
//! READ/WRITE(10) and (16) and INQUIRY in their byte layout, and the INQUIRY
//! response parser.
pub mod mphy;
pub mod uniprot;

use vstd::prelude::*;
use crate::text::prefixed;
use mphy::{MphyInstance, MphyError, PortTransfer, DATA_BUFFER_REGISTER_OFFSET, STATUS_REGISTER_OFFSET, VERSION_READ_ERROR, UFS_VERSION_4_0, transfers_supported, link_version_error};
use uniprot::{UniprotInstance, UniprotError};
use crate::codec::{be16_bytes, be32_bytes, be64_bytes, u16_to_be, u32_to_be, u64_to_be, be_value, law_be16_round_trip, law_be32_round_trip, law_be64_round_trip};

verus! {

/// Operation codes of the SCSI commands this driver issues.
pub const READ_10: u8 = 0x28;
pub const WRITE_10: u8 = 0x2A;
pub const READ_16: u8 = 0x88;
pub const WRITE_16: u8 = 0x8A;
pub const INQUIRY: u8 = 0x12;

/// The SCSI commands a command block can carry.
#[derive(Debug, Clone, Copy, PartialEq, Eq)]
pub enum ScsiCommand {
    Read10,
    Write10,
    Read16,
    Write16,
    Inquiry,
}

/// A command descriptor block of at most 16 bytes together with the command it encodes.
#[derive(Debug, PartialEq, Eq)]
pub struct ScsiCommandDescriptorBlock {
    pub command: ScsiCommand,
    pub cdb: [u8; 16],
}

/// `n` zero bytes.
pub open spec fn zeros(n: nat) -> Seq<u8> {
    Seq::new(n, |i: int| 0u8)
}

/// Layout of a 10-byte READ/WRITE block: operation code, flags, 32-bit
/// big-endian LBA, group number, 16-bit big-endian transfer length, control,
/// padded to 16 bytes.
pub open spec fn cdb10_bytes(op: u8, lba: u32, block_count: u16) -> Seq<u8> {
    seq![op, 0u8] + be32_bytes(lba) + seq![0u8] + be16_bytes(block_count) + zeros(7)
}

/// Layout of a 16-byte READ/WRITE block: operation code, flags, 64-bit
/// big-endian LBA, 32-bit big-endian transfer length, group number, control.
pub open spec fn cdb16_bytes(op: u8, lba: u64, block_count: u32) -> Seq<u8> {
    seq![op, 0u8] + be64_bytes(lba) + be32_bytes(block_count) + zeros(2)
}

/// A 10-byte block's fields read back as what built it: the operation
/// code, the block address and the count (both big-endian), zeros between
/// and after.
pub proof fn law_cdb10_fields_round_trip(op: u8, lba: u32, block_count: u16)
    ensures
        cdb10_bytes(op, lba, block_count).len() == 16,
        cdb10_bytes(op, lba, block_count)[0] == op,
        cdb10_bytes(op, lba, block_count)[1] == 0,
        be_value(cdb10_bytes(op, lba, block_count).subrange(2, 6)) == lba,
        cdb10_bytes(op, lba, block_count)[6] == 0,
        be_value(cdb10_bytes(op, lba, block_count).subrange(7, 9)) == block_count,
        cdb10_bytes(op, lba, block_count).subrange(9, 16) == zeros(7),
{
    let s = cdb10_bytes(op, lba, block_count);
    assert(s.subrange(2, 6) =~= be32_bytes(lba));
    assert(s.subrange(7, 9) =~= be16_bytes(block_count));
    assert(s.subrange(9, 16) =~= zeros(7));
    law_be32_round_trip(lba);
    law_be16_round_trip(block_count);
}

/// A 16-byte block's fields read back as what built it: the operation
/// code, a zero flag byte, the block address and the count (both
/// big-endian), two zero bytes.
pub proof fn law_cdb16_fields_round_trip(op: u8, lba: u64, block_count: u32)
    ensures
        cdb16_bytes(op, lba, block_count).len() == 16,
        cdb16_bytes(op, lba, block_count)[0] == op,
        cdb16_bytes(op, lba, block_count)[1] == 0,
        be_value(cdb16_bytes(op, lba, block_count).subrange(2, 10)) == lba,
        be_value(cdb16_bytes(op, lba, block_count).subrange(10, 14)) == block_count,
        cdb16_bytes(op, lba, block_count).subrange(14, 16) == zeros(2),
{
    let s = cdb16_bytes(op, lba, block_count);
    assert(s.subrange(2, 10) =~= be64_bytes(lba));
    assert(s.subrange(10, 14) =~= be32_bytes(block_count));
    assert(s.subrange(14, 16) =~= zeros(2));
    law_be64_round_trip(lba);
    law_be32_round_trip(block_count);
}

/// Layout of an INQUIRY block: operation code, EVPD bit, page code, 16-bit
/// big-endian allocation length, padded to 16 bytes.
pub open spec fn inquiry_bytes(evpd: bool, page_code: u8, allocation_length: u16) -> Seq<u8> {
    seq![INQUIRY, if evpd { 1u8 } else { 0u8 }, page_code] + be16_bytes(allocation_length) + zeros(11)
}

impl ScsiCommandDescriptorBlock {
    fn build_10_cmd(cmd: u8, command: ScsiCommand, lba: u32, block_count: u16) -> (r: Self)
        ensures
            r.command == command,
            r.cdb@ == cdb10_bytes(cmd, lba, block_count),
    {
        let l = u32_to_be(lba);
        let c = u16_to_be(block_count);
        let cdb = [cmd, 0, l[0], l[1], l[2], l[3], 0, c[0], c[1], 0, 0, 0, 0, 0, 0, 0];
        assert(cdb@ =~= cdb10_bytes(cmd, lba, block_count));
        ScsiCommandDescriptorBlock { command, cdb }
    }

    /// READ(10) for `block_count` blocks starting at `lba`.
    pub fn read10(lba: u32, block_count: u16) -> (r: Self)
        ensures
            r.command == ScsiCommand::Read10,
            r.cdb@ == cdb10_bytes(READ_10, lba, block_count),
    {
        Self::build_10_cmd(READ_10, ScsiCommand::Read10, lba, block_count)
    }

    /// WRITE(10) for `block_count` blocks starting at `lba`.
    pub fn write10(lba: u32, block_count: u16) -> (r: Self)
        ensures
            r.command == ScsiCommand::Write10,
            r.cdb@ == cdb10_bytes(WRITE_10, lba, block_count),
    {
        Self::build_10_cmd(WRITE_10, ScsiCommand::Write10, lba, block_count)
    }

    fn build_16_cmd(cmd: u8, command: ScsiCommand, lba: u64, block_count: u32) -> (r: Self)
        ensures
            r.command == command,
            r.cdb@ == cdb16_bytes(cmd, lba, block_count),
    {
        let l = u64_to_be(lba);
        let c = u32_to_be(block_count);
        let cdb = [cmd, 0, l[0], l[1], l[2], l[3], l[4], l[5], l[6], l[7], c[0], c[1], c[2], c[3], 0, 0];
        assert(cdb@ =~= cdb16_bytes(cmd, lba, block_count));
        ScsiCommandDescriptorBlock { command, cdb }
    }

    /// READ(16) for `block_count` blocks starting at `lba`.
    pub fn read16(lba: u64, block_count: u32) -> (r: Self)
        ensures
            r.command == ScsiCommand::Read16,
            r.cdb@ == cdb16_bytes(READ_16, lba, block_count),
    {
        Self::build_16_cmd(READ_16, ScsiCommand::Read16, lba, block_count)
    }

    /// WRITE(16) for `block_count` blocks starting at `lba`.
    pub fn write16(lba: u64, block_count: u32) -> (r: Self)
        ensures
            r.command == ScsiCommand::Write16,
            r.cdb@ == cdb16_bytes(WRITE_16, lba, block_count),
    {
        Self::build_16_cmd(WRITE_16, ScsiCommand::Write16, lba, block_count)
    }

    /// INQUIRY asking for `allocation_length` bytes of page `page_code`.
    pub fn inquiry(evpd: bool, page_code: u8, allocation_length: u16) -> (r: Self)
        ensures
            r.command == ScsiCommand::Inquiry,
            r.cdb@ == inquiry_bytes(evpd, page_code, allocation_length),
    {
        let a = u16_to_be(allocation_length);
        let e: u8 = if evpd { 1 } else { 0 };
        let cdb = [INQUIRY, e, page_code, a[0], a[1], 0, 0, 0, 0, 0, 0, 0, 0, 0, 0, 0];
        assert(cdb@ =~= inquiry_bytes(evpd, page_code, allocation_length));
        ScsiCommandDescriptorBlock { command: ScsiCommand::Inquiry, cdb }
    }
}

/// Flag bits of byte 3 of an INQUIRY response.
#[derive(Debug, Clone, Copy, PartialEq, Eq)]
pub struct InquiryFlags {
    bits: u8,
}

/// Flag bits of an INQUIRY response.
pub const INQUIRY_FLAG_TPGS: u8 = 0b1000_0000;
pub const INQUIRY_FLAG_CMDQUE: u8 = 0b0100_0000;
pub const INQUIRY_FLAG_SFTRE: u8 = 0b0010_0000;
pub const INQUIRY_FLAG_LINKED: u8 = 0b0001_0000;
pub const INQUIRY_FLAG_SYNC: u8 = 0b0000_1000;
pub const INQUIRY_FLAG_WBUS16: u8 = 0b0000_0100;

/// Every flag bit that INQUIRY responses may carry.
pub const INQUIRY_FLAGS_ALL: u8 = 0xFC;

impl InquiryFlags {
    pub closed spec fn view(&self) -> u8 {
        self.bits
    }

    /// The raw bits.
    pub fn bits(&self) -> (r: u8)
        ensures
            r == self@,
    {
        self.bits
    }

    /// The flags of `bits`, or `None` when a bit outside the defined flags is set.
    pub fn from_bits(bits: u8) -> (r: Option<InquiryFlags>)
        ensures
            r is Some <==> bits & !INQUIRY_FLAGS_ALL == 0,
            r is Some <==> bits % 4 == 0,
            r matches Some(f) ==> f@ == bits,
    {
        assert(bits & !INQUIRY_FLAGS_ALL == 0 <==> bits % 4 == 0) by (bit_vector);
        if bits & !INQUIRY_FLAGS_ALL == 0 {
            Some(InquiryFlags { bits })
        } else {
            None
        }
    }

    /// Whether every flag of `other` is set in `self`.
    pub fn contains(&self, other: InquiryFlags) -> (r: bool)
        ensures
            r == (self@ & other@ == other@),
    {
        self.bits & other.bits == other.bits
    }
}

/// Parsed standard INQUIRY data.
#[derive(Debug, PartialEq, Eq)]
pub struct InquiryResponse {
    pub peripheral_device_type: u8,
    pub peripheral_qualifier: u8,
    pub version: u8,
    pub response_data_format: u8,
    pub additional_length: u8,
    pub flags: InquiryFlags,
    pub vendor_identification: [u8; 8],
    pub product_identification: [u8; 16],
    pub product_revision_level: [u8; 4],
}

/// Errors of the SCSI layer.
#[derive(Debug, PartialEq, Eq)]
pub enum ScsiError {
    InvalidCommand,
    InvalidResponse,
    InvalidParameter,
    Other(&'static str),
}

impl ScsiError {
    /// What the error says.
    pub open spec fn text(self) -> Seq<char> {
        match self {
            ScsiError::InvalidCommand => "Geçersiz SCSI komutu"@,
            ScsiError::InvalidResponse => "Geçersiz yanıt formatı"@,
            ScsiError::InvalidParameter => "Geçersiz parametre"@,
            ScsiError::Other(m) => "Hata: "@ + m@,
        }
    }

    /// The error's message.
    pub fn message(&self) -> (r: String)
        ensures
            r@ == self.text(),
    {
        match self {
            ScsiError::InvalidCommand => String::from_str("Geçersiz SCSI komutu"),
            ScsiError::InvalidResponse => String::from_str("Geçersiz yanıt formatı"),
            ScsiError::InvalidParameter => String::from_str("Geçersiz parametre"),
            ScsiError::Other(m) => prefixed("Hata: ", m),
        }
    }
}

/// How the fields of a parsed INQUIRY response sit in the raw data.
pub open spec fn inquiry_fields(data: Seq<u8>, resp: InquiryResponse) -> bool {
    &&& resp.peripheral_device_type == data[0] % 32
    &&& resp.peripheral_qualifier == data[0] / 32
    &&& resp.version == data[1]
    &&& resp.response_data_format == data[2]
    &&& resp.flags@ == data[3]
    &&& resp.additional_length == data[4]
    &&& resp.vendor_identification@ == data.subrange(8, 16)
    &&& resp.product_identification@ == data.subrange(16, 32)
    &&& resp.product_revision_level@ == data.subrange(32, 36)
}

impl InquiryResponse {
    /// Parses standard INQUIRY data: at least 36 bytes, and byte 3 holding only defined flags.
    pub fn from_bytes(data: &[u8]) -> (r: Result<Self, ScsiError>)
        ensures
            r is Err <==> (data@.len() < 36 || data@[3] % 4 != 0),
            r is Err ==> r == Err::<Self, ScsiError>(ScsiError::InvalidResponse),
            r matches Ok(resp) ==> inquiry_fields(data@, resp),
    {
        if data.len() < 36 {
            return Err(ScsiError::InvalidResponse);
        }
        let flags = match InquiryFlags::from_bits(data[3]) {
            Some(f) => f,
            None => return Err(ScsiError::InvalidResponse),
        };
        let b0 = data[0];
        let device_type = b0 & 0x1F;
        let qualifier = (b0 >> 5u8) & 0x07;
        assert(device_type == b0 % 32 && qualifier == b0 / 32) by (bit_vector)
            requires
                device_type == b0 & 0x1F,
                qualifier == (b0 >> 5u8) & 0x07,
        ;
        let vendor = [data[8], data[9], data[10], data[11], data[12], data[13], data[14], data[15]];
        let product = [
            data[16], data[17], data[18], data[19], data[20], data[21], data[22], data[23],
            data[24], data[25], data[26], data[27], data[28], data[29], data[30], data[31],
        ];
        let revision = [data[32], data[33], data[34], data[35]];
        assert(vendor@ =~= data@.subrange(8, 16));
        assert(product@ =~= data@.subrange(16, 32));
        assert(revision@ =~= data@.subrange(32, 36));
        Ok(InquiryResponse {
            peripheral_device_type: device_type,
            peripheral_qualifier: qualifier,
            version: data[1],
            response_data_format: data[2],
            additional_length: data[4],
            flags,
            vendor_identification: vendor,
            product_identification: product,
            product_revision_level: revision,
        })
    }
}


/// Block size of the device's logical blocks.
pub const BLOCK_SIZE: u64 = 512;

#[derive(Debug)]
pub enum UfsError {
    OpenError,
    ReadError,
    WriteError,
    CloseError,
    InvalidAddress,
    UnsupportedUFSVersion,
    InvalidParameter,
    MphyError(MphyError),
    UniprotError(UniprotError),
    ScsiError(ScsiError),
    Other(String),
}

impl UfsError {
    /// What the error says.
    pub open spec fn text(self) -> Seq<char> {
        match self {
            UfsError::OpenError => "Aygıt açma hatası"@,
            UfsError::ReadError => "Aygıttan okuma hatası"@,
            UfsError::WriteError => "Aygıta yazma hatası"@,
            UfsError::CloseError => "Aygıt kapatma hatası"@,
            UfsError::InvalidAddress => "Geçersiz adres"@,
            UfsError::UnsupportedUFSVersion => "Desteklenmeyen UFS Versiyonu"@,
            UfsError::InvalidParameter => "Geçersiz parametre"@,
            UfsError::MphyError(e) => "M-PHY hatası: "@ + e.text(),
            UfsError::UniprotError(e) => "UniPro hatası: "@ + e.text(),
            UfsError::ScsiError(e) => "SCSI hatası: "@ + e.text(),
            UfsError::Other(s) => "Diğer hata: "@ + s@,
        }
    }

    /// The error's message.
    pub fn message(&self) -> (r: String)
        ensures
            r@ == self.text(),
    {
        match self {
            UfsError::OpenError => String::from_str("Aygıt açma hatası"),
            UfsError::ReadError => String::from_str("Aygıttan okuma hatası"),
            UfsError::WriteError => String::from_str("Aygıta yazma hatası"),
            UfsError::CloseError => String::from_str("Aygıt kapatma hatası"),
            UfsError::InvalidAddress => String::from_str("Geçersiz adres"),
            UfsError::UnsupportedUFSVersion => String::from_str("Desteklenmeyen UFS Versiyonu"),
            UfsError::InvalidParameter => String::from_str("Geçersiz parametre"),
            UfsError::MphyError(e) => {
                let inner = e.message();
                prefixed("M-PHY hatası: ", inner.as_str())
            },
            UfsError::UniprotError(e) => {
                let inner = e.message();
                prefixed("UniPro hatası: ", inner.as_str())
            },
            UfsError::ScsiError(e) => {
                let inner = e.message();
                prefixed("SCSI hatası: ", inner.as_str())
            },
            UfsError::Other(s) => prefixed("Diğer hata: ", s.as_str()),
        }
    }
}

/// A data transfer to carry out: the command block to issue, then the bytes
/// of the buffer moved through the data port.
#[derive(Debug)]
pub struct UfsTransfer {
    pub cdb: ScsiCommandDescriptorBlock,
    pub port: PortTransfer,
}

/// UFS versions that address blocks with 10-byte commands.
pub open spec fn uses_cdb10(version: u16) -> bool {
    0x0100 <= version <= 0x0300
}

/// UFS versions that address blocks with 16-byte commands.
pub open spec fn uses_cdb16(version: u16) -> bool {
    version == 0x0400
}

/// The error a block request is refused with, if any, checked in order: the
/// device must be open, the address inside the device, address and length
/// multiples of the block size, and the version one with a command format.
pub open spec fn request_error(opened: bool, size: u64, version: u16, address: u64, len: nat, closed: UfsError) -> Option<UfsError> {
    if !opened {
        Some(closed)
    } else if address >= size {
        Some(UfsError::InvalidAddress)
    } else if address % 512 != 0 || len % 512 != 0 {
        Some(UfsError::InvalidParameter)
    } else if !(uses_cdb10(version) || uses_cdb16(version)) {
        Some(UfsError::UnsupportedUFSVersion)
    } else {
        None
    }
}

/// The command block for a block request of `len` bytes at `address`.
pub open spec fn request_cdb(version: u16, write: bool, address: u64, len: nat) -> Seq<u8> {
    let lba = address / 512;
    let count = (len / 512) as u32;
    if uses_cdb10(version) {
        cdb10_bytes(if write { WRITE_10 } else { READ_10 }, lba as u32, count as u16)
    } else {
        cdb16_bytes(if write { WRITE_16 } else { READ_16 }, lba as u64, count)
    }
}

/// An open device takes an in-range, block-aligned request of UFS 1.0 to
/// 3.0 with a 10-byte READ or WRITE command, and one of UFS 4.0 with a
/// 16-byte command; any other version is refused.
pub proof fn law_block_command_by_version(version: u16, size: u64, address: u64, len: nat, write: bool, closed: UfsError)
    requires
        address < size,
        address % 512 == 0,
        len % 512 == 0,
    ensures
        (0x0100 <= version <= 0x0300) ==> (request_error(true, size, version, address, len, closed) is None
            && request_cdb(version, write, address, len)[0] == (if write { 0x2Au8 } else { 0x28u8 })),
        version == 0x0400 ==> (request_error(true, size, version, address, len, closed) is None
            && request_cdb(version, write, address, len)[0] == (if write { 0x8Au8 } else { 0x88u8 })),
        !((0x0100 <= version <= 0x0300) || version == 0x0400) ==> request_error(true, size, version, address, len, closed)
            == Some(UfsError::UnsupportedUFSVersion),
{
}

pub struct UfsDevice {
    pub uniprot_instance: UniprotInstance,
    pub device_id: u8,
    pub ufs_version: u16,
    pub device_path: String,
    pub is_open: bool,
    pub device_size: u64,
}

impl UfsDevice {
    pub open spec fn path(&self) -> Seq<char> {
        self.device_path@
    }

    pub open spec fn opened(&self) -> bool {
        self.is_open
    }

    pub open spec fn size(&self) -> u64 {
        self.device_size
    }

    /// Brings up the M-PHY link at `base_address` (whose version register read
    /// `version_register`) and the UniPro layer above it; the device starts closed.
    pub fn new(path: &str, size: u64, base_address: u64, device_id: u8, ufs_version: u16, version_register: u16) -> (r: Result<Self, UfsError>)
        requires
            base_address + STATUS_REGISTER_OFFSET <= u64::MAX,
        ensures
            link_version_error(version_register) matches Some(e) ==> r == Err::<Self, UfsError>(UfsError::MphyError(e)),
            link_version_error(version_register) is None ==> (r matches Ok(d) && {
                &&& d.path() == path@
                &&& !d.opened()
                &&& d.size() == size
                &&& d.device_id == device_id
                &&& d.ufs_version == ufs_version
                &&& d.uniprot_instance.base() == base_address
                &&& d.uniprot_instance.version() == ufs_version
                &&& d.uniprot_instance.mphy().base() == base_address
                &&& d.uniprot_instance.mphy().version() == version_register
            }),
    {
        let mphy_instance = match MphyInstance::new(base_address, version_register) {
            Ok(m) => m,
            Err(e) => return Err(UfsError::from(e)),
        };
        let uniprot_instance = match UniprotInstance::new(base_address, mphy_instance, ufs_version) {
            Ok(u) => u,
            Err(e) => return Err(UfsError::from(e)),
        };
        Ok(UfsDevice {
            uniprot_instance,
            device_id,
            ufs_version,
            device_path: path.to_owned(),
            is_open: false,
            device_size: size,
        })
    }

    /// Opens the device; opening an open device succeeds too.
    pub fn open(&mut self) -> (r: Result<(), UfsError>)
        ensures
            r is Ok,
            final(self).opened(),
            final(self).path() == old(self).path(),
            final(self).size() == old(self).size(),
            final(self).ufs_version == old(self).ufs_version,
            final(self).device_id == old(self).device_id,
            final(self).uniprot_instance == old(self).uniprot_instance,
    {
        if self.is_open {
            return Ok(());
        }
        self.is_open = true;
        Ok(())
    }

    /// Closes the device; closing a closed device succeeds too.
    pub fn close(&mut self) -> (r: Result<(), UfsError>)
        ensures
            r is Ok,
            !final(self).opened(),
            final(self).path() == old(self).path(),
            final(self).size() == old(self).size(),
            final(self).ufs_version == old(self).ufs_version,
            final(self).device_id == old(self).device_id,
            final(self).uniprot_instance == old(self).uniprot_instance,
    {
        if !self.is_open {
            return Ok(());
        }
        self.is_open = false;
        Ok(())
    }

    /// Size of the device in bytes.
    pub fn get_size(&self) -> (r: u64)
        ensures
            r == self.size(),
    {
        self.device_size
    }

    /// Plans a read of `buffer_len` bytes at `address`: the READ command to
    /// issue and the data-port transfer that fills the buffer.
    pub fn read(&self, address: u64, buffer_len: usize) -> (r: Result<UfsTransfer, UfsError>)
        ensures
            request_error(self.opened(), self.size(), self.ufs_version, address, buffer_len as nat, UfsError::ReadError) matches Some(e) ==> r == Err::<UfsTransfer, UfsError>(e),
            request_error(self.opened(), self.size(), self.ufs_version, address, buffer_len as nat, UfsError::ReadError) is None ==> {
                &&& transfers_supported(self.uniprot_instance.mphy().version()) <==> r is Ok
                &&& r is Err ==> r == Err::<UfsTransfer, UfsError>(UfsError::UniprotError(UniprotError::MphyError(MphyError::UnsupportedUFSVersion)))
            },
            (self.opened() && address < self.size() && address % 512 == 0 && buffer_len % 512 == 0
                && 0x0100 <= self.ufs_version <= 0x0300 && transfers_supported(self.uniprot_instance.mphy().version()))
                ==> (r matches Ok(t) && t.cdb.command == ScsiCommand::Read10),
            r matches Ok(t) ==> {
                &&& t.cdb.cdb@ == request_cdb(self.ufs_version, false, address, buffer_len as nat)
                &&& t.port.register == self.uniprot_instance.mphy().base() + DATA_BUFFER_REGISTER_OFFSET
                &&& t.port.length == buffer_len
            },
    {
        if !self.is_open {
            return Err(UfsError::ReadError);
        }
        if address >= self.device_size {
            return Err(UfsError::InvalidAddress);
        }
        if address % 512 != 0 || buffer_len % 512 != 0 {
            return Err(UfsError::InvalidParameter);
        }
        let lba = address / 512;
        let block_count = (buffer_len / 512) as u32;
        let cdb = if 0x0100 <= self.ufs_version && self.ufs_version <= 0x0300 {
            ScsiCommandDescriptorBlock::read10(lba as u32, block_count as u16)
        } else if self.ufs_version == 0x0400 {
            ScsiCommandDescriptorBlock::read16(lba, block_count)
        } else {
            return Err(UfsError::UnsupportedUFSVersion);
        };
        match self.uniprot_instance.execute_command(&cdb, buffer_len) {
            Ok(port) => Ok(UfsTransfer { cdb, port }),
            Err(e) => Err(UfsError::from(e)),
        }
    }

    /// Plans a write of `buffer` at `address`: the WRITE command to issue and
    /// the data-port transfer that carries the buffer.
    pub fn write(&mut self, address: u64, buffer: &[u8]) -> (r: Result<UfsTransfer, UfsError>)
        ensures
            *final(self) == *old(self),
            request_error(old(self).opened(), old(self).size(), old(self).ufs_version, address, buffer@.len(), UfsError::WriteError) matches Some(e) ==> r == Err::<UfsTransfer, UfsError>(e),
            request_error(old(self).opened(), old(self).size(), old(self).ufs_version, address, buffer@.len(), UfsError::WriteError) is None ==> {
                &&& transfers_supported(old(self).uniprot_instance.mphy().version()) <==> r is Ok
                &&& r is Err ==> r == Err::<UfsTransfer, UfsError>(UfsError::UniprotError(UniprotError::MphyError(MphyError::UnsupportedUFSVersion)))
            },
            (old(self).opened() && address < old(self).size() && address % 512 == 0 && buffer@.len() % 512 == 0
                && 0x0100 <= old(self).ufs_version <= 0x0300 && transfers_supported(old(self).uniprot_instance.mphy().version()))
                ==> (r matches Ok(t) && t.cdb.command == ScsiCommand::Write10),
            r matches Ok(t) ==> {
                &&& t.cdb.cdb@ == request_cdb(old(self).ufs_version, true, address, buffer@.len())
                &&& t.port.register == old(self).uniprot_instance.mphy().base() + DATA_BUFFER_REGISTER_OFFSET
                &&& t.port.length == buffer@.len()
            },
    {
        if !self.is_open {
            return Err(UfsError::WriteError);
        }
        if address >= self.device_size {
            return Err(UfsError::InvalidAddress);
        }
        if address % 512 != 0 || buffer.len() % 512 != 0 {
            return Err(UfsError::InvalidParameter);
        }
        let lba = address / 512;
        let block_count = (buffer.len() / 512) as u32;
        let cdb = if 0x0100 <= self.ufs_version && self.ufs_version <= 0x0300 {
            ScsiCommandDescriptorBlock::write10(lba as u32, block_count as u16)
        } else if self.ufs_version == 0x0400 {
            ScsiCommandDescriptorBlock::write16(lba, block_count)
        } else {
            return Err(UfsError::UnsupportedUFSVersion);
        };
        match self.uniprot_instance.execute_command_write(&cdb, buffer) {
            Ok(port) => Ok(UfsTransfer { cdb, port }),
            Err(e) => Err(UfsError::from(e)),
        }
    }

    /// Plans the INQUIRY exchange: the command asking for 96 bytes and the
    /// data-port transfer that receives them.
    pub fn inquiry_command(&self) -> (r: Result<UfsTransfer, UfsError>)
        ensures
            transfers_supported(self.uniprot_instance.mphy().version()) <==> r is Ok,
            r is Err ==> r == Err::<UfsTransfer, UfsError>(UfsError::MphyError(MphyError::UnsupportedUFSVersion)),
            r matches Ok(t) ==> {
                &&& t.cdb.cdb@ == inquiry_bytes(false, 0, 96)
                &&& t.port.register == self.uniprot_instance.mphy().base() + DATA_BUFFER_REGISTER_OFFSET
                &&& t.port.length == 96
            },
    {
        let cdb = ScsiCommandDescriptorBlock::inquiry(false, 0, 96);
        match self.uniprot_instance.execute_command(&cdb, 96) {
            Ok(port) => Ok(UfsTransfer { cdb, port }),
            Err(UniprotError::MphyError(e)) => Err(UfsError::from(e)),
            Err(other) => Err(UfsError::from(other)),
        }
    }

    /// Parses the 96 bytes an INQUIRY returned.
    pub fn inquiry(&self, inquiry_data: &[u8]) -> (r: Result<InquiryResponse, UfsError>)
        requires
            inquiry_data@.len() == 96,
        ensures
            r is Err <==> inquiry_data@[3] % 4 != 0,
            r is Err ==> r == Err::<InquiryResponse, UfsError>(UfsError::ScsiError(ScsiError::InvalidResponse)),
            r matches Ok(resp) ==> inquiry_fields(inquiry_data@, resp),
    {
        match InquiryResponse::from_bytes(inquiry_data) {
            Ok(resp) => Ok(resp),
            Err(e) => Err(UfsError::from(e)),
        }
    }
}


impl From<&'static str> for ScsiError {
    fn from(value: &'static str) -> (r: Self) {
        ScsiError::Other(value)
    }
}

impl vstd::std_specs::convert::FromSpecImpl<&'static str> for ScsiError {
    open spec fn obeys_from_spec() -> bool {
        true
    }

    open spec fn from_spec(value: &'static str) -> Self {
        ScsiError::Other(value)
    }
}

impl From<UniprotError> for UfsError {
    fn from(error: UniprotError) -> (r: Self) {
        UfsError::UniprotError(error)
    }
}

impl vstd::std_specs::convert::FromSpecImpl<UniprotError> for UfsError {
    open spec fn obeys_from_spec() -> bool {
        true
    }

    open spec fn from_spec(error: UniprotError) -> Self {
        UfsError::UniprotError(error)
    }
}

impl From<MphyError> for UfsError {
    fn from(error: MphyError) -> (r: Self) {
        UfsError::MphyError(error)
    }
}

impl vstd::std_specs::convert::FromSpecImpl<MphyError> for UfsError {
    open spec fn obeys_from_spec() -> bool {
        true
    }

    open spec fn from_spec(error: MphyError) -> Self {
        UfsError::MphyError(error)
    }
}

impl From<ScsiError> for UfsError {
    fn from(error: ScsiError) -> (r: Self) {
        UfsError::ScsiError(error)
    }
}

impl vstd::std_specs::convert::FromSpecImpl<ScsiError> for UfsError {
    open spec fn obeys_from_spec() -> bool {
        true
    }

    open spec fn from_spec(error: ScsiError) -> Self {
        UfsError::ScsiError(error)
    }
}

} // verus!
