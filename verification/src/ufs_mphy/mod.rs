//! M-PHY physical layer: decides, from the UFS version the hardware reports,
//! how the link is initialised and through which register data moves; with
//! the UniPro and SCSI layers and the UFS device built on it.
pub mod scsi;
pub mod uniprot;

use vstd::prelude::*;
use crate::text::prefixed;
use scsi::ScsiCommandDescriptorBlock;
use uniprot::{UniprotInstance, UniprotError};

verus! {

pub const UFS_VERSION_REGISTER_OFFSET: u64 = 0x00;
pub const DATA_BUFFER_REGISTER_OFFSET: u64 = 0x04;
pub const STATUS_REGISTER_OFFSET: u64 = 0x08;

pub const UFS_VERSION_4_0: u16 = 0x0400;
pub const UFS_VERSION_3_1: u16 = 0x0310;
pub const UFS_VERSION_1_0: u16 = 0x0100;

/// Value of the version register that signals a failed read.
pub const VERSION_READ_ERROR: u16 = 0xFFFF;

/// A register write the caller performs on the hardware.
#[derive(Debug, Clone, Copy, PartialEq, Eq)]
pub struct RegisterWrite {
    pub address: u64,
    pub value: u32,
}

/// A byte-wise transfer through one data register: `length` bytes, in order,
/// each written to (or read from) `register`.
#[derive(Debug, Clone, Copy, PartialEq, Eq)]
pub struct PortTransfer {
    pub register: u64,
    pub length: usize,
}

/// An initialised M-PHY link.
#[derive(Debug)]
pub struct MphyInstance {
    base_address: u64,
    ufs_version: u16,
}

#[derive(Debug, Clone, Copy, PartialEq, Eq)]
pub enum MphyError {
    Timeout,
    CrcError,
    InitializationError,
    TransmissionError,
    ReceptionError,
    UnsupportedUFSVersion,
    RegisterError,
}

impl MphyError {
    /// What the error says.
    pub open spec fn text(self) -> Seq<char> {
        match self {
            MphyError::Timeout => "Zaman aşımı"@,
            MphyError::CrcError => "CRC hatası"@,
            MphyError::InitializationError => "Başlatma Hatası"@,
            MphyError::TransmissionError => "Veri Gönderme Hatası"@,
            MphyError::ReceptionError => "Veri Alma Hatası"@,
            MphyError::UnsupportedUFSVersion => "Desteklenmeyen UFS Versiyonu"@,
            MphyError::RegisterError => "Register Erişim Hatası"@,
        }
    }

    /// The error's message.
    pub fn message(&self) -> (r: String)
        ensures
            r@ == self.text(),
    {
        let m: &str = match self {
            MphyError::Timeout => "Zaman aşımı",
            MphyError::CrcError => "CRC hatası",
            MphyError::InitializationError => "Başlatma Hatası",
            MphyError::TransmissionError => "Veri Gönderme Hatası",
            MphyError::ReceptionError => "Veri Alma Hatası",
            MphyError::UnsupportedUFSVersion => "Desteklenmeyen UFS Versiyonu",
            MphyError::RegisterError => "Register Erişim Hatası",
        };
        String::from_str(m)
    }
}

/// Why a link whose version register read `version_register` is refused,
/// if it is: the read failed, or the version lies outside UFS 1.0 to 4.0.
pub open spec fn link_version_error(version_register: u16) -> Option<MphyError> {
    if version_register == VERSION_READ_ERROR {
        Some(MphyError::InitializationError)
    } else if version_register < UFS_VERSION_1_0 || version_register > UFS_VERSION_4_0 {
        Some(MphyError::UnsupportedUFSVersion)
    } else {
        None
    }
}

/// Versions for which the link moves data (1.0 to 3.1, and 4.0).
pub open spec fn transfers_supported(version: u16) -> bool {
    (UFS_VERSION_1_0 <= version <= UFS_VERSION_3_1) || version == UFS_VERSION_4_0
}

impl MphyInstance {
    #[verifier::type_invariant]
    spec fn inv(self) -> bool {
        self.base_address + STATUS_REGISTER_OFFSET <= u64::MAX
    }

    pub closed spec fn base(&self) -> u64 {
        self.base_address
    }

    pub closed spec fn version(&self) -> u16 {
        self.ufs_version
    }

    /// The address the version register is read from.
    pub fn version_register_address(base_address: u64) -> (r: u64)
        ensures
            r == base_address + UFS_VERSION_REGISTER_OFFSET,
    {
        base_address + UFS_VERSION_REGISTER_OFFSET
    }

    /// The version the link runs at, given the raw version register: a read
    /// error is `0xFFFF`; otherwise the version read.
    fn read_ufs_version(version_register: u16) -> (r: Result<u16, MphyError>)
        ensures
            version_register == VERSION_READ_ERROR ==> r == Err::<u16, MphyError>(MphyError::InitializationError),
            version_register != VERSION_READ_ERROR ==> r == Ok::<u16, MphyError>(version_register),
    {
        if version_register == VERSION_READ_ERROR {
            return Err(MphyError::InitializationError);
        }
        Ok(version_register)
    }

    /// Brings up the link at `base_address`, whose version register read
    /// `version_register`: refused on a read error or a version outside
    /// UFS 1.0 to 4.0, and otherwise run at the version read.
    pub fn new(base_address: u64, version_register: u16) -> (r: Result<Self, MphyError>)
        requires
            base_address + STATUS_REGISTER_OFFSET <= u64::MAX,
        ensures
            match link_version_error(version_register) {
                Some(e) => r == Err::<Self, MphyError>(e),
                None => r matches Ok(m) && m.base() == base_address && m.version() == version_register,
            },
    {
        let ufs_version = Self::read_ufs_version(version_register)?;
        if !(UFS_VERSION_1_0 <= ufs_version && ufs_version <= UFS_VERSION_4_0) {
            return Err(MphyError::UnsupportedUFSVersion);
        }
        Ok(MphyInstance { base_address, ufs_version })
    }

    /// The status-register write that initialises the link: `0x03` for UFS
    /// 4.0, `0x01` for the earlier versions.
    pub fn init_write(&self) -> (r: RegisterWrite)
        ensures
            r.address == self.base() + STATUS_REGISTER_OFFSET,
            r.value == (if self.version() == UFS_VERSION_4_0 { 0x03u32 } else { 0x01u32 }),
    {
        proof { use_type_invariant(self); }
        if self.ufs_version == UFS_VERSION_4_0 {
            Self::init_ufs_4_0(self.base_address)
        } else {
            Self::init_ufs(self.base_address)
        }
    }

    fn init_ufs(base_address: u64) -> (r: RegisterWrite)
        requires
            base_address + STATUS_REGISTER_OFFSET <= u64::MAX,
        ensures
            r == (RegisterWrite { address: (base_address + STATUS_REGISTER_OFFSET) as u64, value: 0x01 }),
    {
        RegisterWrite { address: base_address + STATUS_REGISTER_OFFSET, value: 0x01 }
    }

    fn init_ufs_4_0(base_address: u64) -> (r: RegisterWrite)
        requires
            base_address + STATUS_REGISTER_OFFSET <= u64::MAX,
        ensures
            r == (RegisterWrite { address: (base_address + STATUS_REGISTER_OFFSET) as u64, value: 0x03 }),
    {
        RegisterWrite { address: base_address + STATUS_REGISTER_OFFSET, value: 0x03 }
    }

    fn data_port(&self, length: usize) -> (r: PortTransfer)
        ensures
            r.register == self.base() + DATA_BUFFER_REGISTER_OFFSET,
            r.length == length,
    {
        proof { use_type_invariant(self); }
        PortTransfer { register: self.base_address + DATA_BUFFER_REGISTER_OFFSET, length }
    }

    /// Sends `data`: each byte, in order, goes to the data register.
    pub fn send_data(&self, data: &[u8]) -> (r: Result<PortTransfer, MphyError>)
        ensures
            transfers_supported(self.version()) <==> r is Ok,
            r matches Ok(t) ==> t.register == self.base() + DATA_BUFFER_REGISTER_OFFSET && t.length == data@.len(),
            !transfers_supported(self.version()) ==> r == Err::<PortTransfer, MphyError>(MphyError::UnsupportedUFSVersion),
    {
        if UFS_VERSION_1_0 <= self.ufs_version && self.ufs_version <= UFS_VERSION_3_1 {
            Ok(self.data_port(data.len()))
        } else if self.ufs_version == UFS_VERSION_4_0 {
            Ok(self.data_port(data.len()))
        } else {
            Err(MphyError::UnsupportedUFSVersion)
        }
    }

    /// Receives `length` bytes: each byte, in order, is read from the data register.
    pub fn receive_data(&self, length: usize) -> (r: Result<PortTransfer, MphyError>)
        ensures
            transfers_supported(self.version()) <==> r is Ok,
            r matches Ok(t) ==> t.register == self.base() + DATA_BUFFER_REGISTER_OFFSET && t.length == length,
            !transfers_supported(self.version()) ==> r == Err::<PortTransfer, MphyError>(MphyError::UnsupportedUFSVersion),
    {
        if UFS_VERSION_1_0 <= self.ufs_version && self.ufs_version <= UFS_VERSION_3_1 {
            Ok(self.data_port(length))
        } else if self.ufs_version == UFS_VERSION_4_0 {
            Ok(self.data_port(length))
        } else {
            Err(MphyError::UnsupportedUFSVersion)
        }
    }
}

/// Block size of the device's logical blocks.
pub const BLOCK_SIZE: u64 = 512;

#[derive(Debug)]
pub enum UfsError {
    OpenError,
    ReadError,
    WriteError,
    CloseError,
    InvalidAddress,
    UnsupportedUFSVersion,
    InvalidParameter,
    MphyError(MphyError),
    UniprotError(UniprotError),
    Other(String),
}

impl UfsError {
    /// What the error says.
    pub open spec fn text(self) -> Seq<char> {
        match self {
            UfsError::OpenError => "Aygıt açma hatası"@,
            UfsError::ReadError => "Aygıttan okuma hatası"@,
            UfsError::WriteError => "Aygıta yazma hatası"@,
            UfsError::CloseError => "Aygıt kapatma hatası"@,
            UfsError::InvalidAddress => "Geçersiz adres"@,
            UfsError::UnsupportedUFSVersion => "Desteklenmeyen UFS Versiyonu"@,
            UfsError::InvalidParameter => "Geçersiz parametre"@,
            UfsError::MphyError(e) => "M-PHY hatası: "@ + e.text(),
            UfsError::UniprotError(e) => "UniPro hatası: "@ + e.text(),
            UfsError::Other(s) => "Diğer hata: "@ + s@,
        }
    }

    /// The error's message.
    pub fn message(&self) -> (r: String)
        ensures
            r@ == self.text(),
    {
        match self {
            UfsError::OpenError => String::from_str("Aygıt açma hatası"),
            UfsError::ReadError => String::from_str("Aygıttan okuma hatası"),
            UfsError::WriteError => String::from_str("Aygıta yazma hatası"),
            UfsError::CloseError => String::from_str("Aygıt kapatma hatası"),
            UfsError::InvalidAddress => String::from_str("Geçersiz adres"),
            UfsError::UnsupportedUFSVersion => String::from_str("Desteklenmeyen UFS Versiyonu"),
            UfsError::InvalidParameter => String::from_str("Geçersiz parametre"),
            UfsError::MphyError(e) => {
                let inner = e.message();
                prefixed("M-PHY hatası: ", inner.as_str())
            },
            UfsError::UniprotError(e) => {
                let inner = e.message();
                prefixed("UniPro hatası: ", inner.as_str())
            },
            UfsError::Other(s) => prefixed("Diğer hata: ", s.as_str()),
        }
    }
}

/// A data transfer to carry out: the command block to issue, then the bytes
/// of the buffer moved through the data port.
#[derive(Debug)]
pub struct UfsTransfer {
    pub cdb: ScsiCommandDescriptorBlock,
    pub port: PortTransfer,
}

/// UFS versions that address blocks with 10-byte commands.
pub open spec fn uses_cdb10(version: u16) -> bool {
    0x0100 <= version <= 0x0300
}

/// UFS versions that address blocks with 16-byte commands.
pub open spec fn uses_cdb16(version: u16) -> bool {
    version == 0x0400
}

/// The error a block request is refused with, if any, checked in order: the
/// device must be open, the address inside the device, address and length
/// multiples of the block size, and the version one with a command format.
pub open spec fn request_error(opened: bool, size: u64, version: u16, address: u64, len: nat, closed: UfsError) -> Option<UfsError> {
    if !opened {
        Some(closed)
    } else if address >= size {
        Some(UfsError::InvalidAddress)
    } else if address % 512 != 0 || len % 512 != 0 {
        Some(UfsError::InvalidParameter)
    } else if !(uses_cdb10(version) || uses_cdb16(version)) {
        Some(UfsError::UnsupportedUFSVersion)
    } else {
        None
    }
}

/// The command for a block request of `len` bytes at `address`.
pub open spec fn request_cdb(version: u16, write: bool, address: u64, len: nat) -> ScsiCommandDescriptorBlock {
    let lba = (address / 512) as u64;
    let block_count = (len / 512) as u32;
    if uses_cdb10(version) {
        if write { ScsiCommandDescriptorBlock::Write10 { lba, block_count } } else { ScsiCommandDescriptorBlock::Read10 { lba, block_count } }
    } else {
        if write { ScsiCommandDescriptorBlock::Write16 { lba, block_count } } else { ScsiCommandDescriptorBlock::Read16 { lba, block_count } }
    }
}

/// An open device takes an in-range, block-aligned request of UFS 1.0 to
/// 3.0 with a READ(10) or WRITE(10) of the addressed blocks, and one of UFS
/// 4.0 with READ(16) or WRITE(16); any other version is refused.
pub proof fn law_block_command_by_version(version: u16, size: u64, address: u64, len: nat, write: bool, closed: UfsError)
    requires
        address < size,
        address % 512 == 0,
        len % 512 == 0,
        len / 512 <= u32::MAX,
    ensures
        (0x0100 <= version <= 0x0300) ==> (request_error(true, size, version, address, len, closed) is None
            && request_cdb(version, write, address, len) == (if write {
                ScsiCommandDescriptorBlock::Write10 { lba: address / 512, block_count: (len / 512) as u32 }
            } else {
                ScsiCommandDescriptorBlock::Read10 { lba: address / 512, block_count: (len / 512) as u32 }
            })),
        version == 0x0400 ==> (request_error(true, size, version, address, len, closed) is None
            && request_cdb(version, write, address, len) == (if write {
                ScsiCommandDescriptorBlock::Write16 { lba: address / 512, block_count: (len / 512) as u32 }
            } else {
                ScsiCommandDescriptorBlock::Read16 { lba: address / 512, block_count: (len / 512) as u32 }
            })),
        !((0x0100 <= version <= 0x0300) || version == 0x0400) ==> request_error(true, size, version, address, len, closed)
            == Some(UfsError::UnsupportedUFSVersion),
{
}

pub struct UfsDevice {
    pub uniprot_instance: UniprotInstance,
    pub device_id: u8,
    pub ufs_version: u16,
    pub device_path: String,
    pub is_open: bool,
    pub device_size: u64,
}

impl UfsDevice {
    pub open spec fn path(&self) -> Seq<char> {
        self.device_path@
    }

    pub open spec fn opened(&self) -> bool {
        self.is_open
    }

    pub open spec fn size(&self) -> u64 {
        self.device_size
    }

    /// Brings up the M-PHY link at `base_address` (whose version register read
    /// `version_register`) and the UniPro layer above it; the device starts closed.
    pub fn new(path: &str, size: u64, base_address: u64, device_id: u8, ufs_version: u16, version_register: u16) -> (r: Result<Self, UfsError>)
        requires
            base_address + STATUS_REGISTER_OFFSET <= u64::MAX,
        ensures
            link_version_error(version_register) matches Some(e) ==> r == Err::<Self, UfsError>(UfsError::MphyError(e)),
            link_version_error(version_register) is None ==> (r matches Ok(d) && {
                &&& d.path() == path@
                &&& !d.opened()
                &&& d.size() == size
                &&& d.device_id == device_id
                &&& d.ufs_version == ufs_version
                &&& d.uniprot_instance.base() == base_address
                &&& d.uniprot_instance.version() == ufs_version
                &&& d.uniprot_instance.mphy().base() == base_address
                &&& d.uniprot_instance.mphy().version() == version_register
            }),
    {
        let mphy_instance = match MphyInstance::new(base_address, version_register) {
            Ok(m) => m,
            Err(e) => return Err(UfsError::from(e)),
        };
        let uniprot_instance = match UniprotInstance::new(base_address, mphy_instance, ufs_version) {
            Ok(u) => u,
            Err(e) => return Err(UfsError::from(e)),
        };
        Ok(UfsDevice {
            uniprot_instance,
            device_id,
            ufs_version,
            device_path: path.to_owned(),
            is_open: false,
            device_size: size,
        })
    }

    /// Opens the device; opening an open device succeeds too.
    pub fn open(&mut self) -> (r: Result<(), UfsError>)
        ensures
            r is Ok,
            final(self).opened(),
            final(self).path() == old(self).path(),
            final(self).size() == old(self).size(),
            final(self).ufs_version == old(self).ufs_version,
            final(self).device_id == old(self).device_id,
            final(self).uniprot_instance == old(self).uniprot_instance,
    {
        if self.is_open {
            return Ok(());
        }
        self.is_open = true;
        Ok(())
    }

    /// Closes the device; closing a closed device succeeds too.
    pub fn close(&mut self) -> (r: Result<(), UfsError>)
        ensures
            r is Ok,
            !final(self).opened(),
            final(self).path() == old(self).path(),
            final(self).size() == old(self).size(),
            final(self).ufs_version == old(self).ufs_version,
            final(self).device_id == old(self).device_id,
            final(self).uniprot_instance == old(self).uniprot_instance,
    {
        if !self.is_open {
            return Ok(());
        }
        self.is_open = false;
        Ok(())
    }

    /// Size of the device in bytes.
    pub fn get_size(&self) -> (r: u64)
        ensures
            r == self.size(),
    {
        self.device_size
    }

    /// Plans a read of `buffer_len` bytes at `address`: the READ command to
    /// issue and the data-port transfer that fills the buffer.
    pub fn read(&self, address: u64, buffer_len: usize) -> (r: Result<UfsTransfer, UfsError>)
        ensures
            request_error(self.opened(), self.size(), self.ufs_version, address, buffer_len as nat, UfsError::ReadError) matches Some(e) ==> r == Err::<UfsTransfer, UfsError>(e),
            request_error(self.opened(), self.size(), self.ufs_version, address, buffer_len as nat, UfsError::ReadError) is None ==> {
                &&& transfers_supported(self.uniprot_instance.mphy().version()) <==> r is Ok
                &&& r is Err ==> r == Err::<UfsTransfer, UfsError>(UfsError::UniprotError(UniprotError::MphyError(MphyError::UnsupportedUFSVersion)))
            },
            r matches Ok(t) ==> {
                &&& t.cdb == request_cdb(self.ufs_version, false, address, buffer_len as nat)
                &&& t.port.register == self.uniprot_instance.mphy().base() + DATA_BUFFER_REGISTER_OFFSET
                &&& t.port.length == buffer_len
            },
    {
        if !self.is_open {
            return Err(UfsError::ReadError);
        }
        if address >= self.device_size {
            return Err(UfsError::InvalidAddress);
        }
        if address % 512 != 0 || buffer_len % 512 != 0 {
            return Err(UfsError::InvalidParameter);
        }
        let lba = address / 512;
        let block_count = (buffer_len / 512) as u32;
        let cdb = if 0x0100 <= self.ufs_version && self.ufs_version <= 0x0300 {
            ScsiCommandDescriptorBlock::read10(lba, block_count)
        } else if self.ufs_version == 0x0400 {
            ScsiCommandDescriptorBlock::read16(lba, block_count)
        } else {
            return Err(UfsError::UnsupportedUFSVersion);
        };
        match self.uniprot_instance.execute_command(&cdb, buffer_len) {
            Ok(port) => Ok(UfsTransfer { cdb, port }),
            Err(e) => Err(UfsError::from(e)),
        }
    }

    /// Plans a write of `buffer` at `address`: the WRITE command to issue and
    /// the data-port transfer that carries the buffer.
    pub fn write(&mut self, address: u64, buffer: &[u8]) -> (r: Result<UfsTransfer, UfsError>)
        ensures
            *final(self) == *old(self),
            request_error(old(self).opened(), old(self).size(), old(self).ufs_version, address, buffer@.len(), UfsError::WriteError) matches Some(e) ==> r == Err::<UfsTransfer, UfsError>(e),
            request_error(old(self).opened(), old(self).size(), old(self).ufs_version, address, buffer@.len(), UfsError::WriteError) is None ==> {
                &&& transfers_supported(old(self).uniprot_instance.mphy().version()) <==> r is Ok
                &&& r is Err ==> r == Err::<UfsTransfer, UfsError>(UfsError::UniprotError(UniprotError::MphyError(MphyError::UnsupportedUFSVersion)))
            },
            r matches Ok(t) ==> {
                &&& t.cdb == request_cdb(old(self).ufs_version, true, address, buffer@.len())
                &&& t.port.register == old(self).uniprot_instance.mphy().base() + DATA_BUFFER_REGISTER_OFFSET
                &&& t.port.length == buffer@.len()
            },
    {
        if !self.is_open {
            return Err(UfsError::WriteError);
        }
        if address >= self.device_size {
            return Err(UfsError::InvalidAddress);
        }
        if address % 512 != 0 || buffer.len() % 512 != 0 {
            return Err(UfsError::InvalidParameter);
        }
        let lba = address / 512;
        let block_count = (buffer.len() / 512) as u32;
        let cdb = if 0x0100 <= self.ufs_version && self.ufs_version <= 0x0300 {
            ScsiCommandDescriptorBlock::write10(lba, block_count)
        } else if self.ufs_version == 0x0400 {
            ScsiCommandDescriptorBlock::write16(lba, block_count)
        } else {
            return Err(UfsError::UnsupportedUFSVersion);
        };
        match self.uniprot_instance.execute_command_write(&cdb, buffer) {
            Ok(port) => Ok(UfsTransfer { cdb, port }),
            Err(e) => Err(UfsError::from(e)),
        }
    }
}



impl From<UniprotError> for UfsError {
    fn from(error: UniprotError) -> (r: Self) {
        UfsError::UniprotError(error)
    }
}

impl vstd::std_specs::convert::FromSpecImpl<UniprotError> for UfsError {
    open spec fn obeys_from_spec() -> bool {
        true
    }

    open spec fn from_spec(error: UniprotError) -> Self {
        UfsError::UniprotError(error)
    }
}

impl From<MphyError> for UfsError {
    fn from(error: MphyError) -> (r: Self) {
        UfsError::MphyError(error)
    }
}

impl vstd::std_specs::convert::FromSpecImpl<MphyError> for UfsError {
    open spec fn obeys_from_spec() -> bool {
        true
    }

    open spec fn from_spec(error: MphyError) -> Self {
        UfsError::MphyError(error)
    }
}

} // verus!
