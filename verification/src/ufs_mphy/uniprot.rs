//! UniPro link layer: carries SCSI command blocks and their data over the M-PHY.
use vstd::prelude::*;
use crate::text::prefixed;
use super::{MphyInstance, MphyError, PortTransfer, DATA_BUFFER_REGISTER_OFFSET, transfers_supported};
use super::scsi::ScsiCommandDescriptorBlock;

verus! {

#[derive(Debug)]
pub struct UniprotInstance {
    base_address: u64,
    mphy_instance: MphyInstance,
    ufs_version: u16,
}

#[derive(Debug)]
pub enum UniprotError {
    MphyError(MphyError),
    Other(String),
}

impl UniprotError {
    /// What the error says.
    pub open spec fn text(self) -> Seq<char> {
        match self {
            UniprotError::MphyError(e) => "M-PHY hatası: "@ + e.text(),
            UniprotError::Other(s) => "Diğer UniPro hatası: "@ + s@,
        }
    }

    /// The error's message.
    pub fn message(&self) -> (r: String)
        ensures
            r@ == self.text(),
    {
        match self {
            UniprotError::MphyError(e) => {
                let inner = e.message();
                prefixed("M-PHY hatası: ", inner.as_str())
            },
            UniprotError::Other(s) => prefixed("Diğer UniPro hatası: ", s.as_str()),
        }
    }
}

impl UniprotInstance {
    pub closed spec fn mphy(&self) -> MphyInstance {
        self.mphy_instance
    }

    pub closed spec fn base(&self) -> u64 {
        self.base_address
    }

    pub closed spec fn version(&self) -> u16 {
        self.ufs_version
    }

    pub fn new(base_address: u64, mphy_instance: MphyInstance, ufs_version: u16) -> (r: Result<Self, UniprotError>)
        ensures
            r is Ok,
            r matches Ok(u) ==> u.base() == base_address && u.mphy() == mphy_instance && u.version() == ufs_version,
    {
        Ok(UniprotInstance { base_address, mphy_instance, ufs_version })
    }

    /// Executes `cdb`, whose response of `buffer_len` bytes arrives through the M-PHY data register.
    pub fn execute_command(&self, cdb: &ScsiCommandDescriptorBlock, buffer_len: usize) -> (r: Result<PortTransfer, UniprotError>)
        ensures
            transfers_supported(self.mphy().version()) <==> r is Ok,
            r matches Ok(t) ==> t.register == self.mphy().base() + DATA_BUFFER_REGISTER_OFFSET && t.length == buffer_len,
            !transfers_supported(self.mphy().version()) ==> r == Err::<PortTransfer, UniprotError>(UniprotError::MphyError(MphyError::UnsupportedUFSVersion)),
    {
        match self.mphy_instance.receive_data(buffer_len) {
            Ok(t) => Ok(t),
            Err(e) => Err(UniprotError::MphyError(e)),
        }
    }

    /// Executes `cdb`, whose data `buffer` leaves through the M-PHY data register.
    pub fn execute_command_write(&self, cdb: &ScsiCommandDescriptorBlock, buffer: &[u8]) -> (r: Result<PortTransfer, UniprotError>)
        ensures
            transfers_supported(self.mphy().version()) <==> r is Ok,
            r matches Ok(t) ==> t.register == self.mphy().base() + DATA_BUFFER_REGISTER_OFFSET && t.length == buffer@.len(),
            !transfers_supported(self.mphy().version()) ==> r == Err::<PortTransfer, UniprotError>(UniprotError::MphyError(MphyError::UnsupportedUFSVersion)),
    {
        match self.mphy_instance.send_data(buffer) {
            Ok(t) => Ok(t),
            Err(e) => Err(UniprotError::MphyError(e)),
        }
    }
}

} // verus!
