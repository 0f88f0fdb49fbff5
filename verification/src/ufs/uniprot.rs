//! UniPro layer of the simulated UFS stack: commands are carried out on an
//! in-memory medium, so that what a WRITE stores a later READ returns.
use vstd::prelude::*;
use crate::text::prefixed;
use super::mphy::{MphyInstance, MphyError};
use super::scsi::ScsiCommandDescriptorBlock;

verus! {

/// Byte `i` of a medium: what was stored there, or zero where nothing was.
pub open spec fn medium_byte(medium: Seq<u8>, i: int) -> u8 {
    if 0 <= i < medium.len() { medium[i] } else { 0 }
}

/// The `len` bytes of a medium starting at `start`.
pub open spec fn medium_read(medium: Seq<u8>, start: int, len: nat) -> Seq<u8> {
    Seq::new(len, |j: int| medium_byte(medium, start + j))
}

/// The medium after `data` is stored at `start`.
pub open spec fn medium_write(medium: Seq<u8>, start: int, data: Seq<u8>) -> Seq<u8> {
    let end = start + data.len();
    Seq::new(
        if medium.len() >= end { medium.len() } else { end as nat },
        |i: int| if start <= i < end { data[i - start] } else { medium_byte(medium, i) },
    )
}

/// Reading back a stored range gives what was stored.
pub proof fn lemma_read_after_write(medium: Seq<u8>, start: int, data: Seq<u8>)
    requires
        0 <= start,
    ensures
        medium_read(medium_write(medium, start, data), start, data.len()) == data,
{
    assert(medium_read(medium_write(medium, start, data), start, data.len()) =~= data);
}

/// Storing a range leaves every byte outside it as it was.
pub proof fn lemma_write_keeps_others(medium: Seq<u8>, start: int, data: Seq<u8>, i: int)
    requires
        0 <= start,
        !(start <= i < start + data.len()),
    ensures
        medium_byte(medium_write(medium, start, data), i) == medium_byte(medium, i),
{
}

/// First byte and length of the medium a command addresses, for the block commands.
pub open spec fn command_range(cdb: ScsiCommandDescriptorBlock) -> Option<(int, bool)> {
    match cdb {
        ScsiCommandDescriptorBlock::Read10 { lba, .. } => Some((lba * 512, false)),
        ScsiCommandDescriptorBlock::Read16 { lba, .. } => Some((lba * 512, false)),
        ScsiCommandDescriptorBlock::Write10 { lba, .. } => Some((lba * 512, true)),
        ScsiCommandDescriptorBlock::Write16 { lba, .. } => Some((lba * 512, true)),
        _ => None,
    }
}

#[derive(Debug)]
pub struct UniprotInstance {
    base_address: u64,
    mphy_instance: MphyInstance,
    ufs_version: u16,
    medium: Vec<u8>,
}

#[derive(Debug)]
pub enum UniprotError {
    MphyError(MphyError),
    Other(String),
}

impl UniprotError {
    /// What the error says.
    pub open spec fn text(self) -> Seq<char> {
        match self {
            UniprotError::MphyError(e) => "M-PHY hatası: "@ + e.text(),
            UniprotError::Other(s) => "Diğer UniPro hatası: "@ + s@,
        }
    }

    /// The error's message.
    pub fn message(&self) -> (r: String)
        ensures
            r@ == self.text(),
    {
        match self {
            UniprotError::MphyError(e) => {
                let inner = e.message();
                prefixed("M-PHY hatası: ", inner.as_str())
            },
            UniprotError::Other(s) => prefixed("Diğer UniPro hatası: ", s.as_str()),
        }
    }
}

impl UniprotInstance {
    /// What the medium holds.
    pub closed spec fn contents(&self) -> Seq<u8> {
        self.medium@
    }

    pub closed spec fn base(&self) -> u64 {
        self.base_address
    }

    pub closed spec fn version(&self) -> u16 {
        self.ufs_version
    }

    /// Brings up the layer over `mphy_instance`, with an empty medium.
    pub fn new(base_address: u64, mphy_instance: MphyInstance, ufs_version: u16) -> (r: Result<Self, UniprotError>)
        ensures
            r is Ok,
            r matches Ok(u) ==> u.base() == base_address && u.version() == ufs_version && u.contents() == Seq::<u8>::empty(),
    {
        Ok(UniprotInstance { base_address, mphy_instance, ufs_version, medium: Vec::new() })
    }

    /// Executes `cdb` with `buffer` receiving its data: a READ fills the
    /// buffer from the medium at the block it addresses; other commands leave
    /// the buffer as it is.
    pub fn execute_command(&self, cdb: &ScsiCommandDescriptorBlock, buffer: &mut [u8]) -> (r: Result<(), UniprotError>)
        requires
            command_range(*cdb) matches Some((start, _)) ==> start + old(buffer)@.len() <= usize::MAX,
        ensures
            r is Ok,
            command_range(*cdb) matches Some((start, false)) ==> final(buffer)@ == medium_read(self.contents(), start, old(buffer)@.len()),
            !(command_range(*cdb) matches Some((_, false))) ==> final(buffer)@ == old(buffer)@,
    {
        let lba = match *cdb {
            ScsiCommandDescriptorBlock::Read10 { lba, .. } => lba,
            ScsiCommandDescriptorBlock::Read16 { lba, .. } => lba,
            _ => return Ok(()),
        };
        let start = (lba * 512) as usize;
        let n = buffer.len();
        let mut j: usize = 0;
        while j < n
            invariant
                n == buffer@.len(),
                n == old(buffer)@.len(),
                start + n <= usize::MAX,
                j <= n,
                forall|k: int| 0 <= k < j ==> buffer@[k] == medium_byte(self.medium@, start + k),
            decreases n - j,
        {
            let i = start + j;
            let byte = if i < self.medium.len() { self.medium[i] } else { 0 };
            buffer[j] = byte;
            j = j + 1;
        }
        assert(buffer@ =~= medium_read(self.medium@, start as int, n as nat));
        Ok(())
    }

    /// Executes `cdb` with `buffer` carrying its data: a WRITE stores the
    /// buffer on the medium at the block it addresses; other commands change nothing.
    pub fn execute_command_write(&mut self, cdb: &ScsiCommandDescriptorBlock, buffer: &[u8]) -> (r: Result<(), UniprotError>)
        requires
            command_range(*cdb) matches Some((start, _)) ==> start + buffer@.len() <= usize::MAX,
        ensures
            r is Ok,
            final(self).base() == old(self).base(),
            final(self).version() == old(self).version(),
            command_range(*cdb) matches Some((start, true)) ==> final(self).contents() == medium_write(old(self).contents(), start, buffer@),
            !(command_range(*cdb) matches Some((_, true))) ==> final(self).contents() == old(self).contents(),
    {
        let lba = match *cdb {
            ScsiCommandDescriptorBlock::Write10 { lba, .. } => lba,
            ScsiCommandDescriptorBlock::Write16 { lba, .. } => lba,
            _ => return Ok(()),
        };
        let start = (lba * 512) as usize;
        let n = buffer.len();
        let end = start + n;
        let ghost before = self.medium@;
        if self.medium.len() < end {
            self.medium.resize(end, 0u8);
        }
        let ghost grown = self.medium@;
        assert forall|i: int| 0 <= i < grown.len() implies grown[i] == medium_byte(before, i) by {}
        let mut j: usize = 0;
        while j < n
            invariant
                n == buffer@.len(),
                end == start + n,
                j <= n,
                self.medium@.len() == grown.len(),
                grown.len() >= end,
                forall|i: int| 0 <= i < grown.len() ==> grown[i] == medium_byte(before, i),
                forall|i: int| 0 <= i < self.medium@.len() ==> #[trigger] self.medium@[i] == if start <= i < start + j { buffer@[i - start] } else { grown[i] },
                self.base_address == old(self).base_address,
                self.ufs_version == old(self).ufs_version,
                before == old(self).medium@,
            decreases n - j,
        {
            self.medium[start + j] = buffer[j];
            j = j + 1;
        }
        assert(self.medium@ =~= medium_write(before, start as int, buffer@));
        Ok(())
    }
}

} // verus!
