//! Where an x86_64 kernel looks for its device tree blob.
//!
//! x86_64 firmware does not hand the blob over in a register, so a fixed
//! default address is used until the platform's own method (UEFI
//! configuration tables, boot loader arguments) is wired in.
use vstd::prelude::*;

verus! {

/// The default address of the device tree blob: 256 MiB.
pub const DEFAULT_DTB_ADDRESS: usize = 0x1000_0000;

/// The address of the device tree blob.
pub fn get_dtb_address() -> (r: usize)
    ensures
        r == DEFAULT_DTB_ADDRESS,
{
    DEFAULT_DTB_ADDRESS
}

} // verus!
