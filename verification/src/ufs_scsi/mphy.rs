//! The M-PHY layer under this stack is the one of `crate::ufs_mphy`.
pub use crate::ufs_mphy::{
    MphyInstance, MphyError, PortTransfer, RegisterWrite, transfers_supported, link_version_error,
    DATA_BUFFER_REGISTER_OFFSET, STATUS_REGISTER_OFFSET, UFS_VERSION_REGISTER_OFFSET,
    VERSION_READ_ERROR, UFS_VERSION_1_0, UFS_VERSION_3_1, UFS_VERSION_4_0,
};
