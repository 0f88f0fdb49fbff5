//! SSD controller: register layout, the decisions of a sector transfer once
//! the controller is no longer busy, and the bookkeeping of the SSD API
//! (start-up, and the sectors a multi-block read or write touches). The
//! register accesses are made by the caller.
use vstd::prelude::*;
use vstd::utf8::valid_utf8;
use crate::codec::{le32_value, word_byte, store_words_le, load_words_le};

verus! {

pub const SSD_BASE_ADDRESS: usize = 0xABC00000;
pub const COMMAND_REGISTER_OFFSET: usize = 0x00;
pub const STATUS_REGISTER_OFFSET: usize = 0x04;
pub const DATA_PORT_OFFSET: usize = 0x08;
pub const INTERRUPT_ENABLE_OFFSET: usize = 0x0C;
pub const INTERRUPT_STATUS_OFFSET: usize = 0x10;

pub const CMD_READ: u32 = 0x01;
pub const CMD_WRITE: u32 = 0x02;
pub const CMD_IDENTIFY: u32 = 0x03;

pub const STATUS_IDLE: u32 = 0x00;
pub const STATUS_BUSY: u32 = 0x01;
pub const STATUS_ERROR: u32 = 0x02;

pub const NO_ERROR: u32 = 0;
pub const ERROR_DEVICE_NOT_FOUND: u32 = 1;
pub const ERROR_INVALID_PARAMETER: u32 = 2;
pub const ERROR_IO: u32 = 3;
pub const ERROR_INSUFFICIENT_BUFFER: u32 = 4;
pub const ERROR_UNSUPPORTED_OPERATION: u32 = 5;

/// Bytes of a sector, and of the identify data.
pub const SECTOR_SIZE: usize = 512;
/// Interrupt line of the controller.
pub const SSD_INTERRUPT: u32 = 10;
/// Block count reported once the identify data has been read.
pub const IDENTIFIED_TOTAL_BLOCKS: u64 = 1024 * 1024;

/// Describes an SSD to its users.
#[derive(Debug, Clone, Copy, PartialEq, Eq)]
pub struct SsdDescriptor {
    pub device_handle: usize,
    pub block_size: u32,
    pub total_blocks: u64,
}

/// The SSD driver: where its controller's registers start.
#[derive(Debug, Clone, Copy, PartialEq, Eq)]
pub struct SsdDriver {
    pub base_address: usize,
}

/// Whether a status register value still shows the controller busy.
pub open spec fn is_busy(status: u32) -> bool {
    status & STATUS_BUSY != 0
}

impl SsdDriver {
    pub fn new() -> (r: Self)
        ensures
            r.base_address == SSD_BASE_ADDRESS,
    {
        SsdDriver { base_address: SSD_BASE_ADDRESS }
    }

    /// Address of the register at `offset` from the controller's base.
    pub fn register(&self, offset: usize) -> (r: usize)
        requires
            self.base_address + offset <= usize::MAX,
        ensures
            r == self.base_address + offset,
    {
        self.base_address + offset
    }

    /// The interrupt the driver registers, and the value that enables it.
    pub fn initialize(&self) -> (r: (u32, u32))
        ensures
            r == (SSD_INTERRUPT, 1u32),
    {
        (SSD_INTERRUPT, 1)
    }

    /// The low and high words of a block address, as written after a
    /// read or write command.
    pub fn lba_words(lba: u64) -> (r: (u32, u32))
        ensures
            r.0 == lba % 0x1_0000_0000,
            r.1 == lba / 0x1_0000_0000,
    {
        let lo = (lba & 0xFFFF_FFFF) as u32;
        let hi = (lba >> 32) as u32;
        assert(lba & 0xFFFF_FFFF == lba % 0x1_0000_0000 && lba >> 32 == lba / 0x1_0000_0000) by (bit_vector);
        (lo, hi)
    }

    pub fn is_busy(status: u32) -> (r: bool)
        ensures
            r == is_busy(status),
    {
        status & STATUS_BUSY != 0
    }

    /// Whether the sector's data may be taken from the data port, given the
    /// status read once the controller is no longer busy: an error status
    /// refuses it with `error`, then a buffer shorter than a sector.
    pub fn data_ready(status: u32, buffer_len: usize, error: &'static str) -> (r: Result<(), &'static str>)
        ensures
            status & STATUS_ERROR != 0 ==> r == Err::<(), &'static str>(error),
            status & STATUS_ERROR == 0 && buffer_len < SECTOR_SIZE ==> r == Err::<(), &'static str>("Sağlanan arabellek çok küçük."),
            status & STATUS_ERROR == 0 && buffer_len >= SECTOR_SIZE ==> r is Ok,
    {
        if status & STATUS_ERROR != 0 {
            return Err(error);
        }
        if buffer_len < SECTOR_SIZE {
            return Err("Sağlanan arabellek çok küçük.");
        }
        Ok(())
    }

    /// Finishes a sector read, given the status read once the controller is
    /// no longer busy and the words then read from the data port: an error
    /// status fails it, then a buffer shorter than a sector; otherwise the
    /// buffer holds the words' bytes.
    pub fn read_sector(&self, status: u32, words: &[u32; 128], buffer: &mut [u8]) -> (r: Result<(), &'static str>)
        ensures
            status & STATUS_ERROR != 0 ==> r == Err::<(), &'static str>("SSD okuma hatası.") && final(buffer)@ == old(buffer)@,
            status & STATUS_ERROR == 0 && old(buffer)@.len() < SECTOR_SIZE
                ==> r == Err::<(), &'static str>("Sağlanan arabellek çok küçük.") && final(buffer)@ == old(buffer)@,
            status & STATUS_ERROR == 0 && old(buffer)@.len() >= SECTOR_SIZE ==> {
                &&& r is Ok
                &&& final(buffer)@.len() == old(buffer)@.len()
                &&& forall|i: int| 0 <= i < SECTOR_SIZE ==> final(buffer)@[i] == word_byte(words@[i / 4], i % 4)
                &&& forall|i: int| SECTOR_SIZE <= i < old(buffer)@.len() ==> final(buffer)@[i] == old(buffer)@[i]
            },
    {
        match Self::data_ready(status, buffer.len(), "SSD okuma hatası.") {
            Ok(()) => {},
            Err(e) => return Err(e),
        }
        store_words_le(words, buffer);
        Ok(())
    }

    /// Starts a sector write: a buffer shorter than a sector is refused;
    /// otherwise the words to write to the data port.
    pub fn write_sector(&self, buffer: &[u8]) -> (r: Result<[u32; 128], &'static str>)
        ensures
            buffer@.len() < SECTOR_SIZE ==> r == Err::<[u32; 128], &'static str>("Sağlanan arabellek çok küçük."),
            buffer@.len() >= SECTOR_SIZE ==> (r matches Ok(words) && forall|k: int| 0 <= k < 128
                ==> words@[k] == le32_value(buffer@[4 * k], buffer@[4 * k + 1], buffer@[4 * k + 2], buffer@[4 * k + 3])),
    {
        if buffer.len() < SECTOR_SIZE {
            return Err("Sağlanan arabellek çok küçük.");
        }
        Ok(load_words_le(buffer))
    }

    /// Finishes a sector write, given the status read once the controller
    /// is no longer busy.
    pub fn write_sector_status(status: u32) -> (r: Result<(), &'static str>)
        ensures
            status & STATUS_ERROR != 0 ==> r == Err::<(), &'static str>("SSD yazma hatası."),
            status & STATUS_ERROR == 0 ==> r is Ok,
    {
        if status & STATUS_ERROR != 0 {
            return Err("SSD yazma hatası.");
        }
        Ok(())
    }

    /// Finishes an identify, as [`read_sector`](Self::read_sector) does a read.
    pub fn identify_raw(&self, status: u32, words: &[u32; 128], buffer: &mut [u8]) -> (r: Result<(), &'static str>)
        ensures
            status & STATUS_ERROR != 0 ==> r == Err::<(), &'static str>("SSD kimlik alma hatası.") && final(buffer)@ == old(buffer)@,
            status & STATUS_ERROR == 0 && old(buffer)@.len() < SECTOR_SIZE
                ==> r == Err::<(), &'static str>("Sağlanan arabellek çok küçük.") && final(buffer)@ == old(buffer)@,
            status & STATUS_ERROR == 0 && old(buffer)@.len() >= SECTOR_SIZE ==> {
                &&& r is Ok
                &&& final(buffer)@.len() == old(buffer)@.len()
                &&& forall|i: int| 0 <= i < SECTOR_SIZE ==> final(buffer)@[i] == word_byte(words@[i / 4], i % 4)
            },
    {
        match Self::data_ready(status, buffer.len(), "SSD kimlik alma hatası.") {
            Ok(()) => {},
            Err(e) => return Err(e),
        }
        store_words_le(words, buffer);
        Ok(())
    }
}

/// Whether bytes are valid UTF-8, by `core::str::from_utf8`, which accepts
/// exactly the valid UTF-8 byte sequences.
#[verifier::external_body]
fn is_utf8(bytes: &[u8]) -> (r: bool)
    ensures
        r == valid_utf8(bytes@),
{
    core::str::from_utf8(bytes).is_ok()
}

/// The SSD API: the driver once started, and the descriptor it hands out.
pub struct SsdSystem {
    pub driver: Option<SsdDriver>,
    pub descriptor: Option<SsdDescriptor>,
}

impl SsdSystem {
    pub fn new() -> (r: Self)
        ensures
            r.driver is None,
            r.descriptor is None,
    {
        SsdSystem { driver: None, descriptor: None }
    }

    /// Whether starting the SSD at `path` has to bring the driver up (and
    /// so identify the device) first: the path must be UTF-8 and the driver
    /// not yet up.
    pub fn needs_driver(&self, path: &[u8]) -> (r: bool)
        ensures
            r == (valid_utf8(path@) && self.driver is None),
    {
        is_utf8(path) && self.driver.is_none()
    }

    /// Starts the SSD at `path`, given the results of the identify made
    /// while bringing the driver up and of the read of the identify data
    /// (both only used when the driver is not yet up): a path that is not
    /// UTF-8 is refused; a failed identify is an I/O error; otherwise the
    /// descriptor of 512-byte blocks, with 1 Mi blocks when the identify
    /// data could be read and none otherwise. Once up, the same descriptor
    /// is handed out again.
    pub fn ssd_init(&mut self, path: &[u8], identify: Result<(), u32>, identify_data: Result<(), u32>) -> (r: Result<SsdDescriptor, u32>)
        requires
            old(self).driver is Some ==> old(self).descriptor is Some,
        ensures
            final(self).driver is Some ==> final(self).descriptor is Some,
            !valid_utf8(path@) ==> r == Err::<SsdDescriptor, u32>(ERROR_INVALID_PARAMETER) && *final(self) == *old(self),
            valid_utf8(path@) && old(self).driver is Some
                ==> r == Ok::<SsdDescriptor, u32>(old(self).descriptor->0) && *final(self) == *old(self),
            valid_utf8(path@) && old(self).driver is None && identify is Err
                ==> r == Err::<SsdDescriptor, u32>(ERROR_IO) && *final(self) == *old(self),
            valid_utf8(path@) && old(self).driver is None && identify is Ok ==> {
                let d = SsdDescriptor {
                    device_handle: SSD_BASE_ADDRESS,
                    block_size: SECTOR_SIZE as u32,
                    total_blocks: if identify_data is Ok { IDENTIFIED_TOTAL_BLOCKS } else { 0 },
                };
                &&& r == Ok::<SsdDescriptor, u32>(d)
                &&& final(self).driver == Some(SsdDriver { base_address: SSD_BASE_ADDRESS })
                &&& final(self).descriptor == Some(d)
            },
    {
        if !is_utf8(path) {
            return Err(ERROR_INVALID_PARAMETER);
        }
        match self.descriptor {
            Some(d) => {
                if self.driver.is_some() {
                    return Ok(d);
                }
            },
            None => {},
        }
        let driver = SsdDriver::new();
        match identify {
            Ok(()) => {},
            Err(_) => return Err(ERROR_IO),
        }
        let total_blocks = match identify_data {
            Ok(()) => IDENTIFIED_TOTAL_BLOCKS,
            Err(_) => 0,
        };
        let d = SsdDescriptor { device_handle: SSD_BASE_ADDRESS, block_size: SECTOR_SIZE as u32, total_blocks };
        self.driver = Some(driver);
        self.descriptor = Some(d);
        Ok(d)
    }

    /// The sector that block `i` of a transfer of `count` blocks at `lba`
    /// touches, and where in the caller's buffer its bytes are.
    pub fn sector(descriptor: &SsdDescriptor, lba: u64, count: u32, i: u32) -> (r: (u64, usize))
        requires
            i < count,
            lba + count <= u64::MAX,
            count * descriptor.block_size <= usize::MAX,
        ensures
            r.0 == lba + i,
            r.1 == i * descriptor.block_size,
    {
        proof {
            vstd::arithmetic::mul::lemma_mul_inequality(i as int, count as int, descriptor.block_size as int);
        }
        (lba + i as u64, i as usize * descriptor.block_size as usize)
    }

    /// The result of a read or write of `count` blocks, given whether one
    /// of its block transfers failed: nothing to do for no block; no driver is `ERROR_DEVICE_NOT_FOUND`; a failed block is
    /// `ERROR_IO`; otherwise `NO_ERROR`.
    pub fn transfer_result(&self, count: u32, failed: bool) -> (r: u32)
        ensures
            count == 0 ==> r == NO_ERROR,
            count != 0 && self.driver is None ==> r == ERROR_DEVICE_NOT_FOUND,
            count != 0 && self.driver is Some && failed ==> r == ERROR_IO,
            count != 0 && self.driver is Some && !failed ==> r == NO_ERROR,
    {
        if count == 0 {
            return NO_ERROR;
        }
        if self.driver.is_none() {
            return ERROR_DEVICE_NOT_FOUND;
        }
        if failed { ERROR_IO } else { NO_ERROR }
    }

    /// Closing hands nothing back to release.
    pub fn ssd_close(descriptor: SsdDescriptor) -> (r: u32)
        ensures
            r == NO_ERROR,
    {
        NO_ERROR
    }
}

} // verus!
