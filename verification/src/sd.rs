//! SD card: the checks of the card API, the driver's initialisation
//! sequence as a state machine, and the packing of a 512-byte block into
//! the 32-bit words of the controller's data port. The register accesses
//! are made by the caller, which reports each result back.
use vstd::prelude::*;
use crate::codec::{le32_value, word_byte, store_words_le, load_words_le};

verus! {

pub const CMD0_GO_IDLE_STATE: u8 = 0;
pub const CMD8_SEND_IF_COND: u8 = 8;
pub const CMD9_SEND_CSD: u8 = 9;
pub const CMD16_SET_BLOCKLEN: u8 = 16;
pub const CMD17_READ_SINGLE_BLOCK: u8 = 17;
pub const CMD24_WRITE_SINGLE_BLOCK: u8 = 24;
pub const CMD55_APP_CMD: u8 = 55;
pub const ACMD41_SD_SEND_OP_COND: u8 = 41;

pub const STATUS_DATA_READY: u32 = 0x1;
pub const STATUS_COMMAND_FINISHED: u32 = 0x2;
pub const STATUS_ERROR: u32 = 0x4;

pub const ERROR_TIMEOUT: u32 = 1;
pub const ERROR_CRC: u32 = 2;

/// Block size the card is used with.
pub const BLOCK_SIZE: usize = 512;
/// Words of the data port per block.
pub const BLOCK_WORDS: usize = 128;
/// Capacity recorded once the card is up, in blocks.
pub const DEFAULT_CAPACITY_BLOCKS: u32 = 4096;
/// Tries of the operating-condition exchange before going on.
pub const OP_COND_ATTEMPTS: u8 = 100;
/// Argument of CMD8: voltage range and check pattern.
pub const IF_COND_ARGUMENT: u32 = 0x1AA;
/// Argument of ACMD41: high-capacity support.
pub const OP_COND_ARGUMENT: u32 = 0x4000_0000;
/// Status polls while waiting for a command to finish.
pub const COMMAND_POLLS: u32 = 1000;
/// Status polls a block write waits for its end.
pub const WRITE_POLLS: u32 = 5000;
/// Milliseconds between the write command and the data, and between polls.
pub const WRITE_SETTLE_MS: u32 = 10;
pub const POLL_INTERVAL_MS: u32 = 1;

#[derive(Debug)]
pub enum SdError {
    InitializationFailed,
    ReadError,
    WriteError,
    InvalidAddress,
    CardNotPresent,
    Other(String),
}

/// What the driver asks the caller to do next.
#[derive(Debug, Clone, Copy, PartialEq, Eq)]
pub enum SdAction {
    /// Wait this many milliseconds, then report [`SdEvent::DelayElapsed`].
    Delay(u32),
    /// Send a command with its argument and wait for it to finish, then
    /// report its response or its error.
    Command { command: u8, argument: u32 },
    /// Initialisation is over.
    Done(Result<(), u32>),
}

/// What the caller reports back.
#[derive(Debug, Clone, Copy, PartialEq, Eq)]
pub enum SdEvent {
    DelayElapsed,
    Response(u32),
    CommandFailed(u32),
}

/// Where initialisation stands.
#[derive(Debug, Clone, Copy, PartialEq, Eq)]
pub enum InitStage {
    Idle,
    PowerUpDelay,
    GoIdle,
    IdleDelay,
    InterfaceCondition,
    AppCommand { attempt: u8 },
    OperatingCondition { attempt: u8 },
    RetryDelay { attempt: u8 },
    BlockLength,
    Finished,
}

pub struct SdDriver {
    pub stage: InitStage,
}

/// Whether an event answers what was asked in `stage`: a delay or a command.
pub open spec fn expects(stage: InitStage, event: SdEvent) -> bool {
    match stage {
        InitStage::PowerUpDelay | InitStage::IdleDelay | InitStage::RetryDelay { .. } => event is DelayElapsed,
        InitStage::GoIdle | InitStage::InterfaceCondition | InitStage::AppCommand { .. }
        | InitStage::OperatingCondition { .. } | InitStage::BlockLength => !(event is DelayElapsed),
        _ => false,
    }
}

/// Whether an attempt number is one the retry loop can be at.
pub open spec fn attempt_ok(stage: InitStage) -> bool {
    match stage {
        InitStage::AppCommand { attempt } => attempt < OP_COND_ATTEMPTS,
        InitStage::OperatingCondition { attempt } => attempt < OP_COND_ATTEMPTS,
        InitStage::RetryDelay { attempt } => attempt < OP_COND_ATTEMPTS,
        _ => true,
    }
}

/// The next stage and action of initialisation, given what was reported:
/// a failed command ends it with that command's error; CMD8 must echo the
/// check pattern `0xAA`; ACMD41 is retried, after CMD55 and a 10 ms wait,
/// until the card reports power-up (bit 31) or 100 tries are made; then the
/// block length is set to 512.
pub open spec fn init_transition(stage: InitStage, event: SdEvent) -> (InitStage, SdAction) {
    match event {
        SdEvent::CommandFailed(e) => (InitStage::Finished, SdAction::Done(Err(e))),
        SdEvent::DelayElapsed => match stage {
            InitStage::PowerUpDelay => (InitStage::GoIdle, SdAction::Command { command: CMD0_GO_IDLE_STATE, argument: 0 }),
            InitStage::IdleDelay => (InitStage::InterfaceCondition, SdAction::Command { command: CMD8_SEND_IF_COND, argument: IF_COND_ARGUMENT }),
            InitStage::RetryDelay { attempt } => if attempt + 1 < OP_COND_ATTEMPTS {
                (InitStage::AppCommand { attempt: (attempt + 1) as u8 }, SdAction::Command { command: CMD55_APP_CMD, argument: 0 })
            } else {
                (InitStage::BlockLength, SdAction::Command { command: CMD16_SET_BLOCKLEN, argument: 512 })
            },
            _ => (stage, SdAction::Done(Err(ERROR_TIMEOUT))),
        },
        SdEvent::Response(response) => match stage {
            InitStage::GoIdle => (InitStage::IdleDelay, SdAction::Delay(100)),
            InitStage::InterfaceCondition => if response % 256 != 0xAA {
                (InitStage::Finished, SdAction::Done(Err(ERROR_TIMEOUT)))
            } else {
                (InitStage::AppCommand { attempt: 0 }, SdAction::Command { command: CMD55_APP_CMD, argument: 0 })
            },
            InitStage::AppCommand { attempt } => (
                InitStage::OperatingCondition { attempt },
                SdAction::Command { command: ACMD41_SD_SEND_OP_COND, argument: OP_COND_ARGUMENT },
            ),
            InitStage::OperatingCondition { attempt } => if response / 0x8000_0000 == 1 {
                (InitStage::BlockLength, SdAction::Command { command: CMD16_SET_BLOCKLEN, argument: 512 })
            } else {
                (InitStage::RetryDelay { attempt }, SdAction::Delay(10))
            },
            InitStage::BlockLength => (InitStage::Finished, SdAction::Done(Ok(()))),
            _ => (stage, SdAction::Done(Err(ERROR_TIMEOUT))),
        },
    }
}

/// The ACMD41 answer decides by the card's power-up bit (bit 31) alone: a
/// card that reports it goes on to SET_BLOCKLEN(512), whatever its other
/// bits say; one that does not is asked again after a 10 ms wait.
pub proof fn law_power_up_bit_decides(attempt: u8, response: u32)
    ensures
        response >= 0x8000_0000 ==> (init_transition((InitStage::OperatingCondition { attempt }), SdEvent::Response(response))
            == (InitStage::BlockLength, (SdAction::Command { command: 16, argument: 512 }))),
        response < 0x8000_0000 ==> (init_transition((InitStage::OperatingCondition { attempt }), SdEvent::Response(response))
            == ((InitStage::RetryDelay { attempt }), SdAction::Delay(10))),
{
}

impl SdDriver {
    pub fn new() -> (r: Self)
        ensures
            r.stage == InitStage::Idle,
    {
        SdDriver { stage: InitStage::Idle }
    }

    /// Starts initialisation: the power-up wait of one second comes first.
    pub fn init(&mut self) -> (r: SdAction)
        ensures
            final(self).stage == InitStage::PowerUpDelay,
            r == SdAction::Delay(1000),
    {
        self.stage = InitStage::PowerUpDelay;
        SdAction::Delay(1000)
    }

    /// Takes what the caller reports for the last action; see
    /// [`init_transition`].
    pub fn resume(&mut self, event: SdEvent) -> (r: SdAction)
        requires
            expects(old(self).stage, event),
            attempt_ok(old(self).stage),
        ensures
            (final(self).stage, r) == init_transition(old(self).stage, event),
            attempt_ok(final(self).stage),
            (event matches SdEvent::Response(resp) && old(self).stage is OperatingCondition && resp >= 0x8000_0000)
                ==> (r == (SdAction::Command { command: 16, argument: 512 }) && final(self).stage == InitStage::BlockLength),
            (event matches SdEvent::Response(resp) && old(self).stage is OperatingCondition && resp < 0x8000_0000)
                ==> (r == SdAction::Delay(10)),
    {
        let (next, action) = match event {
            SdEvent::CommandFailed(e) => (InitStage::Finished, SdAction::Done(Err(e))),
            SdEvent::DelayElapsed => match self.stage {
                InitStage::PowerUpDelay => (InitStage::GoIdle, SdAction::Command { command: CMD0_GO_IDLE_STATE, argument: 0 }),
                InitStage::IdleDelay => (InitStage::InterfaceCondition, SdAction::Command { command: CMD8_SEND_IF_COND, argument: IF_COND_ARGUMENT }),
                InitStage::RetryDelay { attempt } => if attempt + 1 < OP_COND_ATTEMPTS {
                    (InitStage::AppCommand { attempt: attempt + 1 }, SdAction::Command { command: CMD55_APP_CMD, argument: 0 })
                } else {
                    (InitStage::BlockLength, SdAction::Command { command: CMD16_SET_BLOCKLEN, argument: 512 })
                },
                _ => (self.stage, SdAction::Done(Err(ERROR_TIMEOUT))),
            },
            SdEvent::Response(response) => match self.stage {
                InitStage::GoIdle => (InitStage::IdleDelay, SdAction::Delay(100)),
                InitStage::InterfaceCondition => {
                    assert(response & 0xFF == response % 256) by (bit_vector);
                    if response & 0xFF != 0xAA {
                        (InitStage::Finished, SdAction::Done(Err(ERROR_TIMEOUT)))
                    } else {
                        (InitStage::AppCommand { attempt: 0 }, SdAction::Command { command: CMD55_APP_CMD, argument: 0 })
                    }
                },
                InitStage::AppCommand { attempt } => (
                    InitStage::OperatingCondition { attempt },
                    SdAction::Command { command: ACMD41_SD_SEND_OP_COND, argument: OP_COND_ARGUMENT },
                ),
                InitStage::OperatingCondition { attempt } => {
                    assert(response >> 31 == response / 0x8000_0000) by (bit_vector);
                    if response >> 31 == 1 {
                        (InitStage::BlockLength, SdAction::Command { command: CMD16_SET_BLOCKLEN, argument: 512 })
                    } else {
                        (InitStage::RetryDelay { attempt }, SdAction::Delay(10))
                    }
                },
                InitStage::BlockLength => (InitStage::Finished, SdAction::Done(Ok(()))),
                _ => (self.stage, SdAction::Done(Err(ERROR_TIMEOUT))),
            },
        };
        self.stage = next;
        action
    }

    /// Whether a status register value shows every bit of `mask`.
    pub fn status_reached(status: u32, mask: u32) -> (r: bool)
        ensures
            r == (status & mask == mask),
    {
        status & mask == mask
    }

    /// A block transfer needs a buffer of at least one block.
    pub fn check_block_buffer(len: usize) -> (r: Result<(), u32>)
        ensures
            len < BLOCK_SIZE ==> r == Err::<(), u32>(ERROR_TIMEOUT),
            len >= BLOCK_SIZE ==> r is Ok,
    {
        if len < BLOCK_SIZE {
            Err(ERROR_TIMEOUT)
        } else {
            Ok(())
        }
    }

    /// Stores the words read from the data port in the buffer, each
    /// little-endian, four bytes per word.
    pub fn read_block(words: &[u32; 128], buffer: &mut [u8])
        requires
            old(buffer)@.len() >= BLOCK_SIZE,
        ensures
            final(buffer)@.len() == old(buffer)@.len(),
            forall|i: int| 0 <= i < BLOCK_SIZE ==> final(buffer)@[i] == word_byte(words@[i / 4], i % 4),
            forall|i: int| BLOCK_SIZE <= i < old(buffer)@.len() ==> final(buffer)@[i] == old(buffer)@[i],
    {
        store_words_le(words, buffer);
    }

    /// The words to write to the data port for the first block of `buffer`.
    pub fn write_block(buffer: &[u8]) -> (r: [u32; 128])
        requires
            buffer@.len() >= BLOCK_SIZE,
        ensures
            forall|k: int| 0 <= k < BLOCK_WORDS ==> r@[k] == le32_value(buffer@[4 * k], buffer@[4 * k + 1], buffer@[4 * k + 2], buffer@[4 * k + 3]),
    {
        load_words_le(buffer)
    }
}

/// A wait for status bits: the status register read once per
/// [`POLL_INTERVAL_MS`], at most `polls_left` more times.
#[derive(Debug, Clone, Copy, PartialEq, Eq)]
pub struct StatusWait {
    pub mask: u32,
    pub polls_left: u32,
}

impl StatusWait {
    pub fn new(mask: u32, polls: u32) -> (r: Self)
        ensures
            r.mask == mask,
            r.polls_left == polls,
    {
        StatusWait { mask, polls_left: polls }
    }

    /// Takes a status read: the wait succeeds once every bit of the mask is
    /// set; a read that shows them not set uses up a poll, and when none is
    /// left the wait fails with [`ERROR_TIMEOUT`]. `None` asks for another
    /// read after [`POLL_INTERVAL_MS`]. With no poll left the wait has
    /// already failed.
    pub fn step(&mut self, status: u32) -> (r: Option<Result<(), u32>>)
        ensures
            final(self).mask == old(self).mask,
            old(self).polls_left == 0 ==> r == Some(Err::<(), u32>(ERROR_TIMEOUT)) && final(self).polls_left == 0,
            old(self).polls_left > 0 ==> final(self).polls_left == old(self).polls_left - 1,
            old(self).polls_left > 0 && status & old(self).mask == old(self).mask ==> r == Some(Ok::<(), u32>(())),
            old(self).polls_left == 1 && status & old(self).mask != old(self).mask ==> r == Some(Err::<(), u32>(ERROR_TIMEOUT)),
            old(self).polls_left > 1 && status & old(self).mask != old(self).mask ==> r is None,
    {
        if self.polls_left == 0 {
            return Some(Err(ERROR_TIMEOUT));
        }
        self.polls_left = self.polls_left - 1;
        if SdDriver::status_reached(status, self.mask) {
            return Some(Ok(()));
        }
        if self.polls_left == 0 {
            return Some(Err(ERROR_TIMEOUT));
        }
        None
    }
}

/// The SD card as the rest of the system sees it.
pub struct SdCardApi {
    pub driver: SdDriver,
    pub card_capacity_blocks: u32,
}

/// Why a block request is refused, if it is: an address past the card, a
/// buffer of another size than the block, a block size other than 512.
pub open spec fn request_refusal(capacity: u32, address: u32, len: nat, block_size: usize) -> Option<int> {
    if address >= capacity {
        Some(0)
    } else if len != block_size {
        Some(1)
    } else if block_size != BLOCK_SIZE {
        Some(2)
    } else {
        None
    }
}

impl SdCardApi {
    /// A card whose capacity is not yet known.
    pub fn new() -> (r: Self)
        ensures
            r.card_capacity_blocks == 0,
            r.driver.stage == InitStage::Idle,
    {
        SdCardApi { driver: SdDriver::new(), card_capacity_blocks: 0 }
    }

    /// Completes start-up with the driver's initialisation result: on
    /// success the capacity becomes 4096 blocks; a driver error becomes
    /// `InitializationFailed`.
    pub fn init(&mut self, driver_result: Result<(), u32>) -> (r: Result<(), SdError>)
        ensures
            driver_result is Ok ==> r is Ok && final(self).card_capacity_blocks == DEFAULT_CAPACITY_BLOCKS,
            driver_result is Err ==> (r matches Err(SdError::InitializationFailed))
                && final(self).card_capacity_blocks == old(self).card_capacity_blocks,
            final(self).driver.stage == old(self).driver.stage,
    {
        match driver_result {
            Ok(()) => {
                self.card_capacity_blocks = DEFAULT_CAPACITY_BLOCKS;
                Ok(())
            },
            Err(_) => Err(SdError::InitializationFailed),
        }
    }

    /// Checks a block request before the driver is asked; see
    /// [`request_refusal`].
    pub fn check_request(&self, address: u32, len: usize, block_size: usize, wrong_size: &str) -> (r: Result<(), SdError>)
        ensures
            request_refusal(self.card_capacity_blocks, address, len as nat, block_size) is None <==> r is Ok,
            request_refusal(self.card_capacity_blocks, address, len as nat, block_size) == Some(0int)
                ==> (r matches Err(SdError::InvalidAddress)),
            request_refusal(self.card_capacity_blocks, address, len as nat, block_size) == Some(1int)
                ==> (r matches Err(SdError::Other(m)) && m@ == wrong_size@),
            request_refusal(self.card_capacity_blocks, address, len as nat, block_size) == Some(2int)
                ==> (r matches Err(SdError::Other(m)) && m@ == "Şu anda sadece 512 byte'lık blok boyutları destekleniyor."@),
    {
        if address >= self.card_capacity_blocks {
            return Err(SdError::InvalidAddress);
        }
        if len != block_size {
            return Err(SdError::Other(wrong_size.to_owned()));
        }
        if block_size != BLOCK_SIZE {
            return Err(SdError::Other("Şu anda sadece 512 byte'lık blok boyutları destekleniyor.".to_owned()));
        }
        Ok(())
    }

    /// Reads block `address` into `buffer`, given what the driver read from
    /// the data port (or its error). Refused as [`check_request`] says; a
    /// driver error becomes `ReadError`; otherwise the buffer holds the
    /// words' bytes.
    pub fn read_block(&self, address: u32, buffer: &mut [u8], block_size: usize, block: Result<[u32; 128], u32>) -> (r: Result<(), SdError>)
        ensures
            request_refusal(self.card_capacity_blocks, address, old(buffer)@.len(), block_size) is Some
                ==> r is Err && final(buffer)@ == old(buffer)@,
            request_refusal(self.card_capacity_blocks, address, old(buffer)@.len(), block_size) == Some(0int)
                ==> (r matches Err(SdError::InvalidAddress)),
            request_refusal(self.card_capacity_blocks, address, old(buffer)@.len(), block_size) == Some(1int)
                ==> (r matches Err(SdError::Other(m)) && m@ == "Yanlış arabellek boyutu"@),
            request_refusal(self.card_capacity_blocks, address, old(buffer)@.len(), block_size) == Some(2int)
                ==> (r matches Err(SdError::Other(m)) && m@ == "Şu anda sadece 512 byte'lık blok boyutları destekleniyor."@),
            request_refusal(self.card_capacity_blocks, address, old(buffer)@.len(), block_size) is None ==> {
                &&& block is Err ==> (r matches Err(SdError::ReadError)) && final(buffer)@ == old(buffer)@
                &&& block matches Ok(words) ==> r is Ok && final(buffer)@.len() == BLOCK_SIZE
                    && forall|i: int| 0 <= i < BLOCK_SIZE ==> final(buffer)@[i] == word_byte(words@[i / 4], i % 4)
            },
    {
        match self.check_request(address, buffer.len(), block_size, "Yanlış arabellek boyutu") {
            Ok(()) => {},
            Err(e) => return Err(e),
        }
        match block {
            Ok(words) => {
                SdDriver::read_block(&words, buffer);
                Ok(())
            },
            Err(_) => Err(SdError::ReadError),
        }
    }

    /// Checks a block write; on success gives the words to write to the
    /// data port. Refused as [`check_request`] says.
    pub fn write_block(&self, address: u32, data: &[u8], block_size: usize) -> (r: Result<[u32; 128], SdError>)
        ensures
            request_refusal(self.card_capacity_blocks, address, data@.len(), block_size) is None <==> r is Ok,
            request_refusal(self.card_capacity_blocks, address, data@.len(), block_size) == Some(0int)
                ==> (r matches Err(SdError::InvalidAddress)),
            request_refusal(self.card_capacity_blocks, address, data@.len(), block_size) == Some(1int)
                ==> (r matches Err(SdError::Other(m)) && m@ == "Yanlış veri boyutu"@),
            request_refusal(self.card_capacity_blocks, address, data@.len(), block_size) == Some(2int)
                ==> (r matches Err(SdError::Other(m)) && m@ == "Şu anda sadece 512 byte'lık blok boyutları destekleniyor."@),
            r matches Ok(words) ==> forall|k: int| 0 <= k < BLOCK_WORDS
                ==> words@[k] == le32_value(data@[4 * k], data@[4 * k + 1], data@[4 * k + 2], data@[4 * k + 3]),
    {
        match self.check_request(address, data.len(), block_size, "Yanlış veri boyutu") {
            Ok(()) => {},
            Err(e) => return Err(e),
        }
        Ok(SdDriver::write_block(data))
    }

    /// The result of a write, given the driver's: its error becomes `WriteError`.
    pub fn write_result(driver_result: Result<(), u32>) -> (r: Result<(), SdError>)
        ensures
            driver_result is Ok ==> r is Ok,
            driver_result is Err ==> (r matches Err(SdError::WriteError)),
    {
        match driver_result {
            Ok(()) => Ok(()),
            Err(_) => Err(SdError::WriteError),
        }
    }

    pub fn get_card_capacity_blocks(&self) -> (r: u32)
        ensures
            r == self.card_capacity_blocks,
    {
        self.card_capacity_blocks
    }

    /// The card is taken to be present.
    pub fn is_card_present(&self) -> (r: bool)
        ensures
            r,
    {
        true
    }
}

} // verus!
