//! UFS device over a simulated UniPro link: block reads and writes are
//! checked, turned into SCSI commands, and carried out on the link's medium.
pub mod mphy;
pub mod scsi;
pub mod uniprot;

use vstd::prelude::*;
use crate::text::prefixed;
use mphy::{MphyInstance, MphyError};
use scsi::ScsiCommandDescriptorBlock;
use uniprot::{UniprotInstance, UniprotError, medium_read, medium_write};

verus! {

pub struct UfsDevice {
    pub uniprot_instance: UniprotInstance,
    pub device_id: u8,
    pub ufs_version: u16,
    pub device_path: String,
    pub is_open: bool,
    pub device_size: u64,
}

#[derive(Debug)]
pub enum UfsError {
    OpenError,
    ReadError,
    WriteError,
    CloseError,
    InvalidAddress,
    UnsupportedUFSVersion,
    InvalidParameter,
    Other(String),
    MphyError(MphyError),
    UniprotError(UniprotError),
}

impl UfsError {
    /// What the error says.
    pub open spec fn text(self) -> Seq<char> {
        match self {
            UfsError::OpenError => "Aygıt açma hatası"@,
            UfsError::ReadError => "Aygıttan okuma hatası"@,
            UfsError::WriteError => "Aygıta yazma hatası"@,
            UfsError::CloseError => "Aygıt kapatma hatası"@,
            UfsError::InvalidAddress => "Geçersiz adres"@,
            UfsError::UnsupportedUFSVersion => "Desteklenmeyen UFS Versiyonu"@,
            UfsError::InvalidParameter => "Geçersiz parametre"@,
            UfsError::MphyError(e) => "M-PHY hatası: "@ + e.text(),
            UfsError::UniprotError(e) => "UniPro hatası: "@ + e.text(),
            UfsError::Other(s) => "Diğer hata: "@ + s@,
        }
    }

    /// The error's message.
    pub fn message(&self) -> (r: String)
        ensures
            r@ == self.text(),
    {
        match self {
            UfsError::OpenError => String::from_str("Aygıt açma hatası"),
            UfsError::ReadError => String::from_str("Aygıttan okuma hatası"),
            UfsError::WriteError => String::from_str("Aygıta yazma hatası"),
            UfsError::CloseError => String::from_str("Aygıt kapatma hatası"),
            UfsError::InvalidAddress => String::from_str("Geçersiz adres"),
            UfsError::UnsupportedUFSVersion => String::from_str("Desteklenmeyen UFS Versiyonu"),
            UfsError::InvalidParameter => String::from_str("Geçersiz parametre"),
            UfsError::MphyError(e) => {
                let inner = e.message();
                prefixed("M-PHY hatası: ", inner.as_str())
            },
            UfsError::UniprotError(e) => {
                let inner = e.message();
                prefixed("UniPro hatası: ", inner.as_str())
            },
            UfsError::Other(s) => prefixed("Diğer hata: ", s.as_str()),
        }
    }
}

/// The error a block request is refused with, if any, checked in order: the
/// device must be open, the address inside the device, address and length
/// multiples of 512, the version one of 1.0 to 3.0 (10-byte commands)
/// or 4.0 (16-byte commands), and the bytes addressed within what the
/// in-memory medium can index.
pub open spec fn request_error(dev: UfsDevice, address: u64, len: nat, closed: UfsError) -> Option<UfsError> {
    if !dev.is_open {
        Some(closed)
    } else if address >= dev.device_size {
        Some(UfsError::InvalidAddress)
    } else if address % 512 != 0 || len % 512 != 0 {
        Some(UfsError::InvalidParameter)
    } else if !((0x0100 <= dev.ufs_version <= 0x0300) || dev.ufs_version == 0x0400) {
        Some(UfsError::UnsupportedUFSVersion)
    } else if address + len > usize::MAX {
        Some(UfsError::InvalidAddress)
    } else {
        None
    }
}

impl UfsDevice {
    /// What the device stores.
    pub open spec fn contents(&self) -> Seq<u8> {
        self.uniprot_instance.contents()
    }

    /// A closed device at `path` of `size` bytes, with an empty medium.
    pub fn new(path: &str, size: u64, base_address: u64, device_id: u8, ufs_version: u16) -> (r: Result<Self, UfsError>)
        ensures
            r is Ok,
            r matches Ok(d) ==> {
                &&& d.device_path@ == path@
                &&& !d.is_open
                &&& d.device_size == size
                &&& d.device_id == device_id
                &&& d.ufs_version == ufs_version
                &&& d.uniprot_instance.base() == base_address
                &&& d.uniprot_instance.version() == ufs_version
                &&& d.contents() == Seq::<u8>::empty()
            },
    {
        let mphy_instance = match MphyInstance::new(base_address) {
            Ok(m) => m,
            Err(e) => return Err(UfsError::from(e)),
        };
        let uniprot_instance = match UniprotInstance::new(base_address, mphy_instance, ufs_version) {
            Ok(u) => u,
            Err(e) => return Err(UfsError::from(e)),
        };
        Ok(UfsDevice {
            uniprot_instance,
            device_id,
            ufs_version,
            device_path: path.to_owned(),
            is_open: false,
            device_size: size,
        })
    }

    /// Opens the device; opening an open device succeeds too.
    pub fn open(&mut self) -> (r: Result<(), UfsError>)
        ensures
            r is Ok,
            *final(self) == (UfsDevice { is_open: true, ..*old(self) }),
    {
        if self.is_open {
            return Ok(());
        }
        self.is_open = true;
        Ok(())
    }

    /// Closes the device; closing a closed device succeeds too.
    pub fn close(&mut self) -> (r: Result<(), UfsError>)
        ensures
            r is Ok,
            *final(self) == (UfsDevice { is_open: false, ..*old(self) }),
    {
        if !self.is_open {
            return Ok(());
        }
        self.is_open = false;
        Ok(())
    }

    /// Size of the device in bytes.
    pub fn get_size(&self) -> (r: u64)
        ensures
            r == self.device_size,
    {
        self.device_size
    }

    /// Reads `buffer.len()` bytes at `address` into `buffer`.
    pub fn read(&self, address: u64, buffer: &mut [u8]) -> (r: Result<usize, UfsError>)
        ensures
            request_error(*self, address, old(buffer)@.len(), UfsError::ReadError) matches Some(e) ==> {
                &&& r == Err::<usize, UfsError>(e)
                &&& final(buffer)@ == old(buffer)@
            },
            request_error(*self, address, old(buffer)@.len(), UfsError::ReadError) is None ==> {
                &&& r == Ok::<usize, UfsError>(old(buffer)@.len() as usize)
                &&& final(buffer)@ == medium_read(self.contents(), address as int, old(buffer)@.len())
            },
    {
        if !self.is_open {
            return Err(UfsError::ReadError);
        }
        if address >= self.device_size {
            return Err(UfsError::InvalidAddress);
        }
        if address % 512 != 0 || buffer.len() % 512 != 0 {
            return Err(UfsError::InvalidParameter);
        }
        let lba = address / 512;
        let block_count = (buffer.len() / 512) as u32;
        let cdb = if 0x0100 <= self.ufs_version && self.ufs_version <= 0x0300 {
            ScsiCommandDescriptorBlock::read10(lba, block_count)
        } else if self.ufs_version == 0x0400 {
            ScsiCommandDescriptorBlock::read16(lba, block_count)
        } else {
            return Err(UfsError::UnsupportedUFSVersion);
        };
        if (address as u128) + (buffer.len() as u128) > (usize::MAX as u128) {
            return Err(UfsError::InvalidAddress);
        }
        match self.uniprot_instance.execute_command(&cdb, buffer) {
            Ok(()) => {},
            Err(e) => return Err(UfsError::from(e)),
        }
        Ok(buffer.len())
    }

    /// Writes `buffer` at `address`.
    pub fn write(&mut self, address: u64, buffer: &[u8]) -> (r: Result<usize, UfsError>)
        ensures
            request_error(*old(self), address, buffer@.len(), UfsError::WriteError) matches Some(e) ==> {
                &&& r == Err::<usize, UfsError>(e)
                &&& *final(self) == *old(self)
            },
            request_error(*old(self), address, buffer@.len(), UfsError::WriteError) is None ==> {
                &&& r == Ok::<usize, UfsError>(buffer@.len() as usize)
                &&& final(self).contents() == medium_write(old(self).contents(), address as int, buffer@)
                &&& final(self).uniprot_instance.base() == old(self).uniprot_instance.base()
                &&& final(self).uniprot_instance.version() == old(self).uniprot_instance.version()
                &&& final(self).device_path == old(self).device_path
                &&& final(self).is_open == old(self).is_open
                &&& final(self).device_size == old(self).device_size
                &&& final(self).device_id == old(self).device_id
                &&& final(self).ufs_version == old(self).ufs_version
            },
    {
        if !self.is_open {
            return Err(UfsError::WriteError);
        }
        if address >= self.device_size {
            return Err(UfsError::InvalidAddress);
        }
        if address % 512 != 0 || buffer.len() % 512 != 0 {
            return Err(UfsError::InvalidParameter);
        }
        let lba = address / 512;
        let block_count = (buffer.len() / 512) as u32;
        let cdb = if 0x0100 <= self.ufs_version && self.ufs_version <= 0x0300 {
            ScsiCommandDescriptorBlock::write10(lba, block_count)
        } else if self.ufs_version == 0x0400 {
            ScsiCommandDescriptorBlock::write16(lba, block_count)
        } else {
            return Err(UfsError::UnsupportedUFSVersion);
        };
        if (address as u128) + (buffer.len() as u128) > (usize::MAX as u128) {
            return Err(UfsError::InvalidAddress);
        }
        match self.uniprot_instance.execute_command_write(&cdb, buffer) {
            Ok(()) => {},
            Err(e) => return Err(UfsError::from(e)),
        }
        Ok(buffer.len())
    }
}

/// An open device takes an in-range, block-aligned request of UFS 1.0 to
/// 3.0 or 4.0 whose bytes the medium can index; any other version is refused.
pub proof fn law_supported_versions_accepted(dev: UfsDevice, address: u64, len: nat, closed: UfsError)
    requires
        dev.is_open,
        address < dev.device_size,
        address % 512 == 0,
        len % 512 == 0,
        address + len <= usize::MAX,
    ensures
        ((0x0100 <= dev.ufs_version <= 0x0300) || dev.ufs_version == 0x0400) ==> request_error(dev, address, len, closed) is None,
        !((0x0100 <= dev.ufs_version <= 0x0300) || dev.ufs_version == 0x0400) ==> request_error(dev, address, len, closed)
            == Some(UfsError::UnsupportedUFSVersion),
{
}

/// What a read returns of a write: reading, at the address just written, as
/// many bytes as were written gives back exactly the bytes written.
pub proof fn law_read_returns_written(before: Seq<u8>, address: u64, data: Seq<u8>)
    ensures
        medium_read(medium_write(before, address as int, data), address as int, data.len()) == data,
{
    uniprot::lemma_read_after_write(before, address as int, data);
}


impl From<UniprotError> for UfsError {
    fn from(error: UniprotError) -> (r: Self) {
        UfsError::UniprotError(error)
    }
}

impl vstd::std_specs::convert::FromSpecImpl<UniprotError> for UfsError {
    open spec fn obeys_from_spec() -> bool {
        true
    }

    open spec fn from_spec(error: UniprotError) -> Self {
        UfsError::UniprotError(error)
    }
}

impl From<MphyError> for UfsError {
    fn from(error: MphyError) -> (r: Self) {
        UfsError::MphyError(error)
    }
}

impl vstd::std_specs::convert::FromSpecImpl<MphyError> for UfsError {
    open spec fn obeys_from_spec() -> bool {
        true
    }

    open spec fn from_spec(error: MphyError) -> Self {
        UfsError::MphyError(error)
    }
}

} // verus!
