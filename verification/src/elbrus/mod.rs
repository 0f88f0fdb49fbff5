//! Elbrus platform: a simulated block device offered to the kernel as a
//! resource, and the dispatch of exceptions and traps.
pub mod dtb;
pub mod exception;
pub mod interrupt;

use vstd::prelude::*;

verus! {

#[derive(Debug, Copy, Clone, PartialEq, Eq)]
pub enum KError {
    PermissionDenied,
    NotFound,
    InvalidArgument,
    Interrupted,
    BadHandle,
    Busy,
    OutOfMemory,
    BadAddress,
    AlreadyExists,
    NotSupported,
    NoMessage,
    InternalError,
}

impl KError {
    /// The error's code as the kernel reports it: the negated POSIX number,
    /// -255 for an internal error.
    pub open spec fn code_of(self) -> int {
        match self {
            KError::PermissionDenied => -1,
            KError::NotFound => -2,
            KError::InvalidArgument => -3,
            KError::Interrupted => -4,
            KError::BadHandle => -9,
            KError::Busy => -11,
            KError::OutOfMemory => -12,
            KError::BadAddress => -14,
            KError::AlreadyExists => -17,
            KError::NotSupported => -38,
            KError::NoMessage => -61,
            KError::InternalError => -255,
        }
    }

    /// The error's code as the kernel reports it.
    pub fn code(&self) -> (r: i64)
        ensures
            r == self.code_of(),
            r < 0,
    {
        match self {
            KError::PermissionDenied => -1,
            KError::NotFound => -2,
            KError::InvalidArgument => -3,
            KError::Interrupted => -4,
            KError::BadHandle => -9,
            KError::Busy => -11,
            KError::OutOfMemory => -12,
            KError::BadAddress => -14,
            KError::AlreadyExists => -17,
            KError::NotSupported => -38,
            KError::NoMessage => -61,
            KError::InternalError => -255,
        }
    }
}

#[derive(Debug, Copy, Clone, PartialEq, Eq, Hash)]
pub struct KHandle(pub u64);

#[derive(Debug, Copy, Clone, PartialEq, Eq)]
pub enum KseekFrom {
    Start(u64),
    End(u64),
    Current(i64),
}

#[derive(Debug, Copy, Clone, PartialEq, Eq)]
pub enum KResourceStatus {
    Ready,
    Busy,
    Error,
}

pub const MODE_READ: u32 = 1;
pub const MODE_WRITE: u32 = 2;
pub const MODE_CREATE: u32 = 4;

/// A kernel resource: something that can be read, written, controlled and
/// positioned in.
/// A provider says when it is in a usable state, and which transfers and
/// which positionings it can serve.
pub trait ResourceProvider {
    spec fn well_formed(&self) -> bool;

    spec fn transfer_ok(&self, offset: u64, len: nat) -> bool;

    spec fn seek_ok(&self, position: KseekFrom) -> bool;

    fn read(&self, buffer: &mut [u8], offset: u64) -> Result<usize, KError>
        requires
            self.well_formed(),
            self.transfer_ok(offset, old(buffer)@.len());

    fn write(&mut self, buffer: &[u8], offset: u64) -> (r: Result<usize, KError>)
        requires
            old(self).well_formed(),
            old(self).transfer_ok(offset, buffer@.len()),
        ensures
            final(self).well_formed();

    fn control(&mut self, request: u64, arg: u64) -> (r: Result<i64, KError>)
        requires
            old(self).well_formed(),
        ensures
            final(self).well_formed();

    fn seek(&self, position: KseekFrom) -> Result<u64, KError>
        requires
            self.seek_ok(position);

    fn get_status(&self) -> Result<KResourceStatus, KError>;

    fn supports_mode(&self, mode: u32) -> bool;
}

/// Bytes the simulated device can hold.
pub const ELBRUS_CAPACITY: usize = 512 * 1024;
/// Control request: the device's size.
pub const ELBRUS_IOC_GET_SIZE: u64 = 1;
/// Control request: fill the device with zeros.
pub const ELBRUS_IOC_FORMAT: u64 = 2;
/// Name the device is registered under.
pub const ELBRUS_RESOURCE_NAME: &'static str = "karnal://device/elbrus0";

/// A simulated block device of `size` bytes, backed by memory.
pub struct ElbrusDevice {
    buffer: Vec<u8>,
    size: u64,
}

/// The bytes a read of `len` at `offset` gives, on a device holding
/// `contents` of which `size` are in use.
pub open spec fn read_result(contents: Seq<u8>, size: u64, offset: u64, len: nat) -> Seq<u8> {
    if offset >= size { Seq::empty() } else { contents.subrange(offset as int, offset + len) }
}

/// The contents after `data` is written at `offset`.
pub open spec fn write_result(contents: Seq<u8>, offset: u64, data: Seq<u8>) -> Seq<u8> {
    Seq::new(contents.len(), |i: int| if offset <= i < offset + data.len() { data[i - offset] } else { contents[i] })
}

/// Whether a read or write of `len` bytes at `offset` stays on the device:
/// a transfer that starts on it must end on it too.
pub open spec fn fits(size: u64, offset: u64, len: nat) -> bool {
    offset < size ==> offset + len <= size
}

impl ElbrusDevice {
    /// The memory behind the device is all there, and the device fits in it.
    pub closed spec fn wf(&self) -> bool {
        &&& self.buffer@.len() == ELBRUS_CAPACITY
        &&& self.size <= ELBRUS_CAPACITY
    }

    /// What the device holds (all of its memory).
    pub closed spec fn contents(&self) -> Seq<u8> {
        self.buffer@
    }

    pub closed spec fn size(&self) -> u64 {
        self.size
    }

    /// A device of `size` bytes, refused when larger than the memory behind
    /// it; it starts zeroed but for its first 16 bytes (or fewer, if it is
    /// smaller), which count up from 0.
    pub fn new(size: u64) -> (r: Result<Self, KError>)
        ensures
            size > ELBRUS_CAPACITY <==> r is Err,
            r is Err ==> r == Err::<Self, KError>(KError::InvalidArgument),
            r matches Ok(d) ==> {
                &&& d.wf()
                &&& d.size() == size
                &&& d.contents().len() == ELBRUS_CAPACITY
                &&& forall|i: int| 0 <= i < ELBRUS_CAPACITY ==> d.contents()[i] == (if i < 16 && i < size { i as u8 } else { 0u8 })
            },
    {
        if size > ELBRUS_CAPACITY as u64 {
            return Err(KError::InvalidArgument);
        }
        let mut buffer: Vec<u8> = Vec::new();
        let mut i: usize = 0;
        while i < ELBRUS_CAPACITY
            invariant
                i <= ELBRUS_CAPACITY,
                buffer@.len() == i,
                forall|j: int| 0 <= j < i ==> buffer@[j] == (if j < 16 && j < size { j as u8 } else { 0u8 }),
            decreases ELBRUS_CAPACITY - i,
        {
            if i < 16 && (i as u64) < size {
                buffer.push(i as u8);
            } else {
                buffer.push(0);
            }
            i = i + 1;
        }
        Ok(ElbrusDevice { buffer, size })
    }
}

impl ResourceProvider for ElbrusDevice {
    open spec fn well_formed(&self) -> bool {
        self.wf()
    }

    /// A transfer that starts on the device must end on it.
    open spec fn transfer_ok(&self, offset: u64, len: nat) -> bool {
        fits(self.size(), offset, len)
    }

    /// A move back from the current position must be representable.
    open spec fn seek_ok(&self, position: KseekFrom) -> bool {
        position matches KseekFrom::Current(o) ==> o != i64::MIN
    }

    /// Reads at `offset`: nothing past the end of the device; otherwise the
    /// device's bytes from `offset` fill the buffer.
    fn read(&self, buffer: &mut [u8], offset: u64) -> (r: Result<usize, KError>)
        ensures
            offset >= self.size() ==> r == Ok::<usize, KError>(0) && final(buffer)@ == old(buffer)@,
            offset < self.size() ==> {
                &&& r == Ok::<usize, KError>(old(buffer)@.len() as usize)
                &&& final(buffer)@ == read_result(self.contents(), self.size(), offset, old(buffer)@.len())
            },
    {
        if offset >= self.size {
            return Ok(0);
        }
        let n = buffer.len();
        if n == 0 {
            assert(buffer@ =~= read_result(self.contents(), self.size(), offset, 0));
            return Ok(0);
        }
        let start = offset as usize;
        assert(start == offset);
        let ghost before = buffer@;
        let mut i: usize = 0;
        while i < n
            invariant
                i <= n,
                n == buffer@.len(),
                buffer@.len() == before.len(),
                start + n <= self.size,
                self.size <= ELBRUS_CAPACITY,
                self.buffer@.len() == ELBRUS_CAPACITY,
                forall|j: int| 0 <= j < i ==> buffer@[j] == self.buffer@[start + j],
            decreases n - i,
        {
            buffer[i] = self.buffer[start + i];
            i = i + 1;
        }
        assert(buffer@ =~= read_result(self.contents(), self.size(), offset, before.len()));
        Ok(n)
    }

    /// Writes at `offset`: refused past the end of the device; otherwise the
    /// buffer's bytes replace the device's from `offset` on.
    fn write(&mut self, buffer: &[u8], offset: u64) -> (r: Result<usize, KError>)
        ensures
            final(self).size() == old(self).size(),
            offset >= old(self).size() ==> r == Err::<usize, KError>(KError::InvalidArgument)
                && final(self).contents() == old(self).contents(),
            offset < old(self).size() ==> {
                &&& r == Ok::<usize, KError>(buffer@.len() as usize)
                &&& final(self).contents() == write_result(old(self).contents(), offset, buffer@)
            },
    {
        if offset >= self.size {
            return Err(KError::InvalidArgument);
        }
        let n = buffer.len();
        let start = offset as usize;
        assert(start == offset);
        let ghost before = self.buffer@;
        let ghost size = self.size;
        let mut i: usize = 0;
        while i < n
            invariant
                i <= n,
                n == buffer@.len(),
                start + n <= self.size <= ELBRUS_CAPACITY,
                self.size == size,
                self.buffer@.len() == ELBRUS_CAPACITY,
                before.len() == ELBRUS_CAPACITY,
                forall|j: int| 0 <= j < ELBRUS_CAPACITY ==> self.buffer@[j] == (if start <= j < start + i { buffer@[j - start] } else { before[j] }),
            decreases n - i,
        {
            self.buffer.set(start + i, buffer[i]);
            i = i + 1;
        }
        assert(self.buffer@ =~= write_result(before, offset, buffer@));
        Ok(n)
    }

    /// Control requests: the device's size; filling the bytes in use with
    /// zeros; anything else is refused.
    fn control(&mut self, request: u64, arg: u64) -> (r: Result<i64, KError>)
        ensures
            final(self).size() == old(self).size(),
            request == ELBRUS_IOC_GET_SIZE ==> r == Ok::<i64, KError>(old(self).size() as i64)
                && final(self).contents() == old(self).contents(),
            request == ELBRUS_IOC_FORMAT ==> r == Ok::<i64, KError>(0) && final(self).contents() == Seq::new(
                old(self).contents().len(),
                |i: int| if i < old(self).size() { 0u8 } else { old(self).contents()[i] },
            ),
            request != ELBRUS_IOC_GET_SIZE && request != ELBRUS_IOC_FORMAT
                ==> r == Err::<i64, KError>(KError::InvalidArgument) && final(self).contents() == old(self).contents(),
    {
        if request == ELBRUS_IOC_GET_SIZE {
            return Ok(self.size as i64);
        }
        if request == ELBRUS_IOC_FORMAT {
            let n = self.size as usize;
            let ghost before = self.buffer@;
            let ghost size = self.size;
            let mut i: usize = 0;
            while i < n
                invariant
                    i <= n,
                    n == self.size,
                    self.size == size,
                    n <= ELBRUS_CAPACITY,
                    self.buffer@.len() == ELBRUS_CAPACITY,
                    before.len() == ELBRUS_CAPACITY,
                    forall|j: int| 0 <= j < ELBRUS_CAPACITY ==> self.buffer@[j] == (if j < i { 0u8 } else { before[j] }),
                decreases n - i,
            {
                self.buffer.set(i, 0);
                i = i + 1;
            }
            assert(self.buffer@ =~= Seq::new(before.len(), |i: int| if i < self.size { 0u8 } else { before[i] }));
            return Ok(0);
        }
        Err(KError::InvalidArgument)
    }

    /// A new position: from the start, from the end (not before the start),
    /// or from the current position, which is the start; a position past
    /// the end is refused.
    fn seek(&self, position: KseekFrom) -> (r: Result<u64, KError>)
        ensures
            r == (match position {
                KseekFrom::Start(o) => if o > self.size() { Err(KError::InvalidArgument) } else { Ok(o) },
                KseekFrom::End(o) => if o > self.size() { Err(KError::InvalidArgument) } else { Ok((self.size() - o) as u64) },
                KseekFrom::Current(o) => if o < 0 || o > self.size() { Err(KError::InvalidArgument) } else { Ok(o as u64) },
            }),
    {
        let current: u64 = 0;
        let new_offset = match position {
            KseekFrom::Start(offset) => offset,
            KseekFrom::End(offset) => {
                if offset > self.size {
                    return Err(KError::InvalidArgument);
                }
                match self.size.checked_sub(offset) {
                    Some(v) => v,
                    None => return Err(KError::InvalidArgument),
                }
            },
            KseekFrom::Current(offset) => {
                if offset >= 0 {
                    match current.checked_add(offset as u64) {
                        Some(v) => v,
                        None => return Err(KError::InvalidArgument),
                    }
                } else {
                    match current.checked_sub((-offset) as u64) {
                        Some(v) => v,
                        None => return Err(KError::InvalidArgument),
                    }
                }
            },
        };
        if new_offset > self.size {
            return Err(KError::InvalidArgument);
        }
        Ok(new_offset)
    }

    fn get_status(&self) -> (r: Result<KResourceStatus, KError>)
        ensures
            r == Ok::<KResourceStatus, KError>(KResourceStatus::Ready),
    {
        Ok(KResourceStatus::Ready)
    }

    /// The device can be read and written, nothing else.
    fn supports_mode(&self, mode: u32) -> (r: bool)
        ensures
            r == (mode & (MODE_READ | MODE_WRITE) == mode),
    {
        mode & (MODE_READ | MODE_WRITE) == mode
    }
}

/// Registers a provider under `id`, giving its handle.
pub fn register_provider(id: &str, provider: ElbrusDevice) -> (r: Result<KHandle, KError>)
    ensures
        r == Ok::<KHandle, KError>(KHandle(123)),
{
    Ok(KHandle(123))
}

/// Creates the 512 KiB device and registers it.
pub fn register_elbrus_device() -> (r: Result<(), KError>)
    ensures
        r is Ok,
{
    let device = match ElbrusDevice::new(ELBRUS_CAPACITY as u64) {
        Ok(d) => d,
        Err(e) => return Err(e),
    };
    match register_provider(ELBRUS_RESOURCE_NAME, device) {
        Ok(_) => Ok(()),
        Err(e) => Err(e),
    }
}

/// What a read returns of a write: reading, where bytes were just written,
/// as many bytes as were written gives those bytes back.
pub proof fn law_read_returns_written(contents: Seq<u8>, size: u64, offset: u64, data: Seq<u8>)
    requires
        offset < size,
        offset + data.len() <= size <= contents.len(),
    ensures
        read_result(write_result(contents, offset, data), size, offset, data.len()) == data,
{
    assert(read_result(write_result(contents, offset, data), size, offset, data.len()) =~= data);
}

/// A write leaves every byte outside the written range as it was.
pub proof fn law_write_keeps_others(contents: Seq<u8>, offset: u64, data: Seq<u8>, i: int)
    requires
        0 <= i < contents.len(),
        !(offset <= i < offset + data.len()),
    ensures
        write_result(contents, offset, data)[i] == contents[i],
{
}

} // verus!
