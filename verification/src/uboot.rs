//! U-Boot hand-over data: where the two device-tree properties that
//! describe the loaded image are, and when what they hold is usable.
use vstd::prelude::*;
use crate::text::str_eq;

verus! {

/// Where the device-tree values are mapped.
pub const DT_BASE_ADDRESS: u32 = 0x10000000;
pub const LOAD_ADDRESS_OFFSET: u32 = 0x10;
pub const IMAGE_SIZE_OFFSET: u32 = 0x20;

#[derive(Debug, Clone, Copy, PartialEq, Eq)]
pub struct UbootData {
    pub load_address: u32,
    pub image_size: u32,
}

/// Address of a property's value: the load address and the image size each
/// have their own; other properties have none.
pub fn property_address(property_name: &str) -> (r: Option<u32>)
    ensures
        property_name@ == "u-boot,load-address"@ ==> r == Some((DT_BASE_ADDRESS + LOAD_ADDRESS_OFFSET) as u32),
        property_name@ != "u-boot,load-address"@ && property_name@ == "u-boot,image-size"@
            ==> r == Some((DT_BASE_ADDRESS + IMAGE_SIZE_OFFSET) as u32),
        property_name@ != "u-boot,load-address"@ && property_name@ != "u-boot,image-size"@ ==> r is None,
{
    if str_eq(property_name, "u-boot,load-address") {
        Some(DT_BASE_ADDRESS + LOAD_ADDRESS_OFFSET)
    } else if str_eq(property_name, "u-boot,image-size") {
        Some(DT_BASE_ADDRESS + IMAGE_SIZE_OFFSET)
    } else {
        None
    }
}

/// The hand-over data from the two property values read: none when either
/// could not be read or either is zero.
pub fn read_uboot_data(load_address: Option<u32>, image_size: Option<u32>) -> (r: Option<UbootData>)
    ensures
        r == (match (load_address, image_size) {
            (Some(a), Some(s)) => if a != 0 && s != 0 {
                Some(UbootData { load_address: a, image_size: s })
            } else {
                None
            },
            _ => None,
        }),
{
    let mut data = UbootData { load_address: 0, image_size: 0 };
    match load_address {
        Some(a) => data.load_address = a,
        None => return None,
    }
    match image_size {
        Some(s) => data.image_size = s,
        None => return None,
    }
    if data.load_address != 0 && data.image_size != 0 {
        Some(data)
    } else {
        None
    }
}

} // verus!
