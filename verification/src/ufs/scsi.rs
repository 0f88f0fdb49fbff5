//! The SCSI commands of this stack are the structured ones of `crate::ufs_mphy::scsi`.
pub use crate::ufs_mphy::scsi::{ScsiCommandDescriptorBlock, InquiryResponse, inquiry_fields};
