//! RAID 0 over two block devices: logical blocks are striped across the
//! disks a whole disk at a time, and the array is as large as both disks.
use vstd::prelude::*;

verus! {

pub const RAID_LEVEL: u8 = 0;
pub const NUM_DISKS: usize = 2;
pub const BLOCK_SIZE: usize = 512;
/// Blocks of each simulated disk.
pub const DISK_BLOCKS: u64 = 1024;

/// A device that stores blocks of [`BLOCK_SIZE`] bytes.
pub trait BlockDevice {
    fn read_block(&self, block_number: u64, buffer: &mut [u8]) -> Result<(), ()>;

    fn write_block(&self, block_number: u64, buffer: &[u8]) -> Result<(), ()>;

    fn get_block_count(&self) -> u64;
}

/// A simulated disk: reads return a byte pattern of the block number,
/// writes are checked and dropped.
#[derive(Debug, Clone, Copy)]
pub struct SimpleDisk {
    pub identifier: &'static str,
    pub size_blocks: u64,
}

/// Byte `i` of simulated block `block_number`: the block number's low byte
/// plus `i`, modulo 256.
pub open spec fn disk_pattern(block_number: u64, i: int) -> u8 {
    ((block_number % 256 + i) % 256) as u8
}

impl SimpleDisk {
    pub fn new(identifier: &'static str, size_blocks: u64) -> (r: Self)
        ensures
            r.identifier == identifier,
            r.size_blocks == size_blocks,
    {
        SimpleDisk { identifier, size_blocks }
    }
}

impl BlockDevice for SimpleDisk {
    /// Reads a block: refused unless the buffer is one block and the block
    /// is on the disk; otherwise the buffer holds the block's pattern.
    fn read_block(&self, block_number: u64, buffer: &mut [u8]) -> (r: Result<(), ()>)
        ensures
            (old(buffer)@.len() == BLOCK_SIZE && block_number < self.size_blocks) <==> r is Ok,
            r is Err ==> final(buffer)@ == old(buffer)@,
            r is Ok ==> final(buffer)@.len() == BLOCK_SIZE
                && forall|i: int| 0 <= i < BLOCK_SIZE ==> final(buffer)@[i] == disk_pattern(block_number, i),
    {
        if buffer.len() != BLOCK_SIZE || block_number >= self.size_blocks {
            return Err(());
        }
        let low = (block_number % 256) as u8;
        let mut i: usize = 0;
        while i < BLOCK_SIZE
            invariant
                i <= BLOCK_SIZE,
                buffer@.len() == BLOCK_SIZE,
                low == block_number % 256,
                forall|j: int| 0 <= j < i ==> buffer@[j] == disk_pattern(block_number, j),
            decreases BLOCK_SIZE - i,
        {
            buffer[i] = low.wrapping_add((i % 256) as u8);
            i = i + 1;
        }
        Ok(())
    }

    /// Writes a block: refused unless the buffer is one block and the block
    /// is on the disk.
    fn write_block(&self, block_number: u64, buffer: &[u8]) -> (r: Result<(), ()>)
        ensures
            (buffer@.len() == BLOCK_SIZE && block_number < self.size_blocks) <==> r is Ok,
    {
        if buffer.len() != BLOCK_SIZE || block_number >= self.size_blocks {
            return Err(());
        }
        Ok(())
    }

    fn get_block_count(&self) -> (r: u64)
        ensures
            r == self.size_blocks,
    {
        self.size_blocks
    }
}

/// The striped array.
pub struct RaidArray {
    pub disks: [Option<SimpleDisk>; 2],
    pub block_size: usize,
}

/// The disk a logical block lives on, for disks of `stripe` blocks.
pub open spec fn stripe_disk(stripe: u64, block_number: u64) -> int {
    (block_number as int % (stripe as int * 2)) / stripe as int
}

/// The block of that disk it lives at.
pub open spec fn stripe_block(stripe: u64, block_number: u64) -> int {
    block_number as int % stripe as int
}

/// Below two stripes, the stripe index is 0 or 1, and the offset in the
/// stripe what is left after whole stripes.
proof fn lemma_within_two_stripes(x: int, s: int)
    requires
        s > 0,
        0 <= x < 2 * s,
    ensures
        x < s ==> x / s == 0 && x % s == x,
        x >= s ==> x / s == 1 && x % s == x - s,
{
    if x < s {
        vstd::arithmetic::div_mod::lemma_fundamental_div_mod_converse(x, s, 0, x);
    } else {
        vstd::arithmetic::div_mod::lemma_fundamental_div_mod_converse(x, s, 1, x - s);
    }
}

/// An array whose first disk is present, with a size the mapping can use.
pub open spec fn mappable(raid: RaidArray) -> bool {
    &&& raid.disks[0] is Some
    &&& raid.disks[0]->0.size_blocks > 0
    &&& raid.disks[0]->0.size_blocks * NUM_DISKS <= u64::MAX
}

/// Both disks, of 1024 blocks each.
pub fn init_raid() -> (r: RaidArray)
    ensures
        r.disks[0] == Some(SimpleDisk { identifier: "disk1", size_blocks: DISK_BLOCKS }),
        r.disks[1] == Some(SimpleDisk { identifier: "disk2", size_blocks: DISK_BLOCKS }),
        r.block_size == BLOCK_SIZE,
        mappable(r),
{
    let disks: [Option<SimpleDisk>; 2] = [
        Some(SimpleDisk::new("disk1", DISK_BLOCKS)),
        Some(SimpleDisk::new("disk2", DISK_BLOCKS)),
    ];
    RaidArray { disks, block_size: BLOCK_SIZE }
}

/// Where a logical block is: the disk and its block there.
pub fn raid_location(raid: &RaidArray, block_number: u64) -> (r: (usize, u64))
    requires
        mappable(*raid),
    ensures
        r.0 == stripe_disk(raid.disks[0]->0.size_blocks, block_number),
        r.1 == stripe_block(raid.disks[0]->0.size_blocks, block_number),
        r.0 < NUM_DISKS,
        r.1 < raid.disks[0]->0.size_blocks,
{
    let stripe_size = match &raid.disks[0] {
        Some(d) => d.get_block_count(),
        None => 0,
    };
    let span = stripe_size * NUM_DISKS as u64;
    let disk_index = (block_number % span) / stripe_size;
    proof {
        lemma_within_two_stripes((block_number % span) as int, stripe_size as int);
    }
    (disk_index as usize, block_number % stripe_size)
}

/// Reads a logical block: refused unless the buffer is one block, there is
/// an array, and the disk the block is on is present; otherwise what that
/// disk's read of its block gives.
pub fn raid_read_block(raid: &Option<RaidArray>, block_number: u64, buffer: &mut [u8]) -> (r: Result<(), ()>)
    requires
        old(buffer)@.len() == BLOCK_SIZE && raid is Some ==> mappable(raid->0),
    ensures
        (old(buffer)@.len() != BLOCK_SIZE || raid is None) ==> r is Err && final(buffer)@ == old(buffer)@,
        old(buffer)@.len() == BLOCK_SIZE && raid is Some ==> {
            let a = raid->0;
            let disk = stripe_disk(a.disks[0]->0.size_blocks, block_number);
            let block = stripe_block(a.disks[0]->0.size_blocks, block_number) as u64;
            &&& a.disks[disk] is None ==> r is Err && final(buffer)@ == old(buffer)@
            &&& a.disks[disk] is Some ==> {
                &&& (block < a.disks[disk]->0.size_blocks <==> r is Ok)
                &&& r is Err ==> final(buffer)@ == old(buffer)@
                &&& r is Ok ==> final(buffer)@.len() == BLOCK_SIZE
                    && forall|i: int| 0 <= i < BLOCK_SIZE ==> final(buffer)@[i] == disk_pattern(block, i)
            }
        },
{
    if buffer.len() != BLOCK_SIZE {
        return Err(());
    }
    match raid {
        Some(raid_array) => {
            let (disk_index, disk_block_number) = raid_location(raid_array, block_number);
            match &raid_array.disks[disk_index] {
                Some(disk) => disk.read_block(disk_block_number, buffer),
                None => Err(()),
            }
        },
        None => Err(()),
    }
}

/// Writes a logical block: refused as [`raid_read_block`] is, and by the
/// disk's own checks.
pub fn raid_write_block(raid: &Option<RaidArray>, block_number: u64, buffer: &[u8]) -> (r: Result<(), ()>)
    requires
        buffer@.len() == BLOCK_SIZE && raid is Some ==> mappable(raid->0),
    ensures
        (buffer@.len() != BLOCK_SIZE || raid is None) ==> r is Err,
        buffer@.len() == BLOCK_SIZE && raid is Some ==> {
            let a = raid->0;
            let disk = stripe_disk(a.disks[0]->0.size_blocks, block_number);
            let block = stripe_block(a.disks[0]->0.size_blocks, block_number);
            &&& a.disks[disk] is None ==> r is Err
            &&& a.disks[disk] is Some ==> (block < a.disks[disk]->0.size_blocks <==> r is Ok)
        },
{
    if buffer.len() != BLOCK_SIZE {
        return Err(());
    }
    match raid {
        Some(raid_array) => {
            let (disk_index, disk_block_number) = raid_location(raid_array, block_number);
            match &raid_array.disks[disk_index] {
                Some(disk) => disk.write_block(disk_block_number, buffer),
                None => Err(()),
            }
        },
        None => Err(()),
    }
}

/// Blocks of the array: both disks' worth of the first disk's size; zero
/// without an array or a first disk.
pub fn raid_get_block_count(raid: &Option<RaidArray>) -> (r: u64)
    requires
        raid is Some && raid->0.disks[0] is Some ==> raid->0.disks[0]->0.size_blocks * NUM_DISKS <= u64::MAX,
    ensures
        raid is Some && raid->0.disks[0] is Some ==> r == raid->0.disks[0]->0.size_blocks * NUM_DISKS,
        raid is None || raid->0.disks[0] is None ==> r == 0,
{
    match raid {
        Some(raid_array) => match &raid_array.disks[0] {
            Some(first_disk) => first_disk.get_block_count() * NUM_DISKS as u64,
            None => 0,
        },
        None => 0,
    }
}

/// Striping puts the blocks of the array at distinct places: two different
/// logical blocks below the array's size are on different disks or at
/// different blocks.
pub proof fn law_striping_is_injective(stripe: u64, b1: u64, b2: u64)
    requires
        stripe > 0,
        b1 < stripe * NUM_DISKS,
        b2 < stripe * NUM_DISKS,
        b1 != b2,
    ensures
        stripe_disk(stripe, b1) != stripe_disk(stripe, b2) || stripe_block(stripe, b1) != stripe_block(stripe, b2),
{
    let s = stripe as int;
    vstd::arithmetic::div_mod::lemma_small_mod(b1 as nat, (s * 2) as nat);
    vstd::arithmetic::div_mod::lemma_small_mod(b2 as nat, (s * 2) as nat);
    lemma_within_two_stripes(b1 as int, s);
    lemma_within_two_stripes(b2 as int, s);
}

/// Every block below the array's size lies inside a disk: on one of the
/// two disks, below the first disk's size.
pub proof fn law_striping_in_range(stripe: u64, b: u64)
    requires
        stripe > 0,
        b < stripe * NUM_DISKS,
    ensures
        0 <= stripe_disk(stripe, b) < NUM_DISKS,
        0 <= stripe_block(stripe, b) < stripe,
        stripe_disk(stripe, b) == b as int / stripe as int,
{
    let s = stripe as int;
    vstd::arithmetic::div_mod::lemma_small_mod(b as nat, (s * 2) as nat);
    lemma_within_two_stripes(b as int, s);
}

} // verus!
