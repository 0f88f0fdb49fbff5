//! SPI controller: its configuration, the register writes that bring it
//! up, and how a byte transfer uses the registers.
use vstd::prelude::*;

verus! {

pub const CONTROL_REGISTER_OFFSET: usize = 0x00;
pub const DATA_OUT_REGISTER_OFFSET: usize = 0x04;
pub const DATA_IN_REGISTER_OFFSET: usize = 0x08;
pub const STATUS_REGISTER_OFFSET: usize = 0x0C;
pub const SPI_ENABLE_BIT: u32 = 0x01;
pub const SPI_DISABLE_BIT: u32 = 0x00;
pub const BUSY_FLAG_BIT: u8 = 0x80;
/// Clock speed of the first controller, in Hz.
pub const SPI0_CLOCK_SPEED: u32 = 1_000_000;

#[derive(Debug, Clone, Copy, PartialEq, Eq)]
pub enum SpiMode {
    Mode0,
    Mode1,
    Mode2,
    Mode3,
}

#[derive(Debug, Clone, Copy, PartialEq, Eq)]
pub struct SpiConfig {
    pub clock_speed: u32,
    pub mode: SpiMode,
}

/// A controller whose registers start at `base_address`.
#[derive(Debug, Clone, Copy, PartialEq, Eq)]
pub struct Spi {
    pub base_address: usize,
    pub config: SpiConfig,
}

/// A register write for the caller to perform.
#[derive(Debug, Clone, Copy, PartialEq, Eq)]
pub struct RegisterWrite {
    pub address: usize,
    pub value: u32,
}

/// The registers a byte transfer uses: the byte goes out, the status is
/// polled until not busy, and the answer is read.
#[derive(Debug, Clone, Copy, PartialEq, Eq)]
pub struct TransferRegisters {
    pub data_out: usize,
    pub status: usize,
    pub data_in: usize,
}

/// Registers of a controller at `base` must lie in the address space.
pub open spec fn registers_fit(base: usize) -> bool {
    base + STATUS_REGISTER_OFFSET <= usize::MAX
}

impl Spi {
    pub fn new(base_address: usize, config: SpiConfig) -> (r: Self)
        ensures
            r.base_address == base_address,
            r.config == config,
    {
        Spi { base_address, config }
    }

    /// Brings the controller up: its control register gets the enable bit,
    /// whatever the mode.
    pub fn init(&mut self) -> (r: RegisterWrite)
        requires
            registers_fit(old(self).base_address),
        ensures
            *final(self) == *old(self),
            r == (RegisterWrite { address: (old(self).base_address + CONTROL_REGISTER_OFFSET) as usize, value: SPI_ENABLE_BIT }),
    {
        RegisterWrite { address: self.base_address + CONTROL_REGISTER_OFFSET, value: SPI_ENABLE_BIT }
    }

    pub fn transfer_registers(&self) -> (r: TransferRegisters)
        requires
            registers_fit(self.base_address),
        ensures
            r.data_out == self.base_address + DATA_OUT_REGISTER_OFFSET,
            r.status == self.base_address + STATUS_REGISTER_OFFSET,
            r.data_in == self.base_address + DATA_IN_REGISTER_OFFSET,
    {
        TransferRegisters {
            data_out: self.base_address + DATA_OUT_REGISTER_OFFSET,
            status: self.base_address + STATUS_REGISTER_OFFSET,
            data_in: self.base_address + DATA_IN_REGISTER_OFFSET,
        }
    }

    /// Whether a status value shows a transfer still running.
    pub fn busy(status: u8) -> (r: bool)
        ensures
            r == (status >= BUSY_FLAG_BIT),
    {
        proof { crate::bits::lemma_high_bit(status); }
        status & BUSY_FLAG_BIT != 0
    }
}

/// The first controller: 1 MHz, mode 0.
pub fn spi0(base_address: usize) -> (r: Spi)
    ensures
        r == (Spi { base_address, config: SpiConfig { clock_speed: SPI0_CLOCK_SPEED, mode: SpiMode::Mode0 } }),
{
    Spi::new(base_address, SpiConfig { clock_speed: SPI0_CLOCK_SPEED, mode: SpiMode::Mode0 })
}

} // verus!
