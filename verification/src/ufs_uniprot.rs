//! UniPro link layer with version-specific command handling: a link is
//! brought up only for UFS 1.0 to 4.0, and a command goes out through the
//! M-PHY data port with its response read back the same way.
use vstd::prelude::*;
use crate::text::prefixed;
use crate::ufs_mphy::{MphyInstance, MphyError, PortTransfer, DATA_BUFFER_REGISTER_OFFSET, transfers_supported};

verus! {

pub const UFS_VERSION_MIN: u16 = 0x0100;
pub const UFS_VERSION_MAX: u16 = 0x0400;

#[derive(Debug)]
pub struct UniprotInstance {
    base_address: u64,
    mphy_instance: MphyInstance,
    ufs_version: u16,
}

#[derive(Debug)]
pub enum UniprotError {
    MphyError(MphyError),
    Timeout,
    CrcError,
    UnsupportedUFSVersion,
    RegisterAccessError,
}

impl UniprotError {
    /// What the error says.
    pub open spec fn text(self) -> Seq<char> {
        match self {
            UniprotError::MphyError(e) => "M-PHY hatası: "@ + e.text(),
            UniprotError::Timeout => "Zaman aşımı"@,
            UniprotError::CrcError => "CRC hatası"@,
            UniprotError::UnsupportedUFSVersion => "Desteklenmeyen UFS Versiyonu"@,
            UniprotError::RegisterAccessError => "Register Erişim Hatası"@,
        }
    }

    /// The error's message.
    pub fn message(&self) -> (r: String)
        ensures
            r@ == self.text(),
    {
        match self {
            UniprotError::MphyError(e) => {
                let inner = e.message();
                prefixed("M-PHY hatası: ", inner.as_str())
            },
            UniprotError::Timeout => String::from_str("Zaman aşımı"),
            UniprotError::CrcError => String::from_str("CRC hatası"),
            UniprotError::UnsupportedUFSVersion => String::from_str("Desteklenmeyen UFS Versiyonu"),
            UniprotError::RegisterAccessError => String::from_str("Register Erişim Hatası"),
        }
    }
}

impl From<MphyError> for UniprotError {
    fn from(error: MphyError) -> (r: Self) {
        UniprotError::MphyError(error)
    }
}

impl vstd::std_specs::convert::FromSpecImpl<MphyError> for UniprotError {
    open spec fn obeys_from_spec() -> bool {
        true
    }

    open spec fn from_spec(error: MphyError) -> Self {
        UniprotError::MphyError(error)
    }
}

/// The two data-port transfers of one command: the command block out, then
/// the response in.
#[derive(Debug, Clone, Copy, PartialEq, Eq)]
pub struct CommandExchange {
    pub command: PortTransfer,
    pub response: PortTransfer,
}

/// Versions a link can be brought up for.
pub open spec fn supported_version(version: u16) -> bool {
    UFS_VERSION_MIN <= version <= UFS_VERSION_MAX
}

/// Versions that have a command procedure: 1.0, 2.0 to 3.1, and 4.0.
pub open spec fn has_command_procedure(version: u16) -> bool {
    version == 0x0100 || (0x0200 <= version <= 0x0310) || version == 0x0400
}

impl UniprotInstance {
    #[verifier::type_invariant]
    spec fn inv(self) -> bool {
        supported_version(self.ufs_version)
    }

    pub closed spec fn base(&self) -> u64 {
        self.base_address
    }

    pub closed spec fn mphy(&self) -> MphyInstance {
        self.mphy_instance
    }

    pub closed spec fn version(&self) -> u16 {
        self.ufs_version
    }

    /// Brings up a link for `ufs_version`; refused outside 1.0 to 4.0.
    pub fn new(base_address: u64, mphy_instance: MphyInstance, ufs_version: u16) -> (r: Result<Self, UniprotError>)
        ensures
            supported_version(ufs_version) <==> r is Ok,
            r is Err ==> r == Err::<Self, UniprotError>(UniprotError::UnsupportedUFSVersion),
            r matches Ok(u) ==> u.base() == base_address && u.mphy() == mphy_instance && u.version() == ufs_version,
    {
        if UFS_VERSION_MIN <= ufs_version && ufs_version <= UFS_VERSION_MAX {
            Ok(UniprotInstance { base_address, mphy_instance, ufs_version })
        } else {
            Err(UniprotError::UnsupportedUFSVersion)
        }
    }

    fn exchange(&self, cdb: &[u8], buffer_len: usize) -> (r: Result<CommandExchange, UniprotError>)
        ensures
            transfers_supported(self.mphy().version()) <==> r is Ok,
            r is Err ==> r == Err::<CommandExchange, UniprotError>(UniprotError::MphyError(MphyError::UnsupportedUFSVersion)),
            r matches Ok(x) ==> {
                &&& x.command.register == self.mphy().base() + DATA_BUFFER_REGISTER_OFFSET
                &&& x.command.length == cdb@.len()
                &&& x.response.register == self.mphy().base() + DATA_BUFFER_REGISTER_OFFSET
                &&& x.response.length == buffer_len
            },
    {
        let command = match self.mphy_instance.send_data(cdb) {
            Ok(t) => t,
            Err(e) => return Err(UniprotError::MphyError(e)),
        };
        let response = match self.mphy_instance.receive_data(buffer_len) {
            Ok(t) => t,
            Err(e) => return Err(UniprotError::MphyError(e)),
        };
        Ok(CommandExchange { command, response })
    }

    /// Executes the command block `cdb` whose response fills `buffer_len`
    /// bytes: the transfers to carry out on the data port, for the versions
    /// with a command procedure.
    pub fn execute_command(&mut self, cdb: &[u8], buffer_len: usize) -> (r: Result<CommandExchange, UniprotError>)
        ensures
            *final(self) == *old(self),
            !has_command_procedure(old(self).version()) ==> r == Err::<CommandExchange, UniprotError>(UniprotError::UnsupportedUFSVersion),
            has_command_procedure(old(self).version()) ==> (transfers_supported(old(self).mphy().version()) <==> r is Ok),
            has_command_procedure(old(self).version()) && !transfers_supported(old(self).mphy().version())
                ==> r == Err::<CommandExchange, UniprotError>(UniprotError::MphyError(MphyError::UnsupportedUFSVersion)),
            r matches Ok(x) ==> {
                &&& x.command.register == old(self).mphy().base() + DATA_BUFFER_REGISTER_OFFSET
                &&& x.command.length == cdb@.len()
                &&& x.response.register == old(self).mphy().base() + DATA_BUFFER_REGISTER_OFFSET
                &&& x.response.length == buffer_len
            },
    {
        if self.ufs_version == 0x0100 {
            self.exchange(cdb, buffer_len)
        } else if 0x0200 <= self.ufs_version && self.ufs_version <= 0x0310 {
            self.exchange(cdb, buffer_len)
        } else if self.ufs_version == 0x0400 {
            self.exchange(cdb, buffer_len)
        } else {
            Err(UniprotError::UnsupportedUFSVersion)
        }
    }

    /// Address of the UniPro register at `offset` from the link's base.
    pub fn register_address(&self, offset: u64) -> (r: u64)
        requires
            self.base() + offset <= u64::MAX,
        ensures
            r == self.base() + offset,
    {
        self.base_address + offset
    }
}

} // verus!
