//! SCSI commands as structured values, and the INQUIRY data layout of this stack.
use vstd::prelude::*;

verus! {

#[derive(Debug, Clone, Copy, PartialEq, Eq)]
pub enum ScsiCommandDescriptorBlock {
    Read10 { lba: u64, block_count: u32 },
    Write10 { lba: u64, block_count: u32 },
    Read16 { lba: u64, block_count: u32 },
    Write16 { lba: u64, block_count: u32 },
    Inquiry { lun: u8, allocation_length: u8 },
}

impl ScsiCommandDescriptorBlock {
    pub fn read10(lba: u64, block_count: u32) -> (r: Self)
        ensures
            r == (ScsiCommandDescriptorBlock::Read10 { lba, block_count }),
    {
        ScsiCommandDescriptorBlock::Read10 { lba, block_count }
    }

    pub fn write10(lba: u64, block_count: u32) -> (r: Self)
        ensures
            r == (ScsiCommandDescriptorBlock::Write10 { lba, block_count }),
    {
        ScsiCommandDescriptorBlock::Write10 { lba, block_count }
    }

    pub fn read16(lba: u64, block_count: u32) -> (r: Self)
        ensures
            r == (ScsiCommandDescriptorBlock::Read16 { lba, block_count }),
    {
        ScsiCommandDescriptorBlock::Read16 { lba, block_count }
    }

    pub fn write16(lba: u64, block_count: u32) -> (r: Self)
        ensures
            r == (ScsiCommandDescriptorBlock::Write16 { lba, block_count }),
    {
        ScsiCommandDescriptorBlock::Write16 { lba, block_count }
    }

    pub fn inquiry(lun: u8, allocation_length: u8) -> (r: Self)
        ensures
            r == (ScsiCommandDescriptorBlock::Inquiry { lun, allocation_length }),
    {
        ScsiCommandDescriptorBlock::Inquiry { lun, allocation_length }
    }
}

#[derive(Debug)]
pub struct InquiryResponse {
    pub peripheral_qualifier: u8,
    pub peripheral_device_type: u8,
    pub removable_medium: bool,
    pub ansi_version: u8,
    pub oem_identification: [u8; 8],
    pub product_identification: [u8; 16],
    pub product_revision_level: [u8; 4],
    pub vendor_specific: [u8; 20],
    pub reserved: [u8; 3],
    pub additional_length: u8,
}

/// How the fields of a parsed response sit in the raw data.
pub open spec fn inquiry_fields(data: Seq<u8>, resp: InquiryResponse) -> bool {
    &&& resp.peripheral_qualifier == data[0] / 32
    &&& resp.peripheral_device_type == data[0] % 32
    &&& resp.removable_medium == (data[1] >= 0x80)
    &&& resp.ansi_version == data[2]
    &&& resp.oem_identification@ == data.subrange(3, 11)
    &&& resp.product_identification@ == data.subrange(11, 27)
    &&& resp.product_revision_level@ == data.subrange(27, 31)
    &&& resp.vendor_specific@ == data.subrange(31, 51)
    &&& resp.reserved@ == data.subrange(51, 54)
    &&& resp.additional_length == data[4]
}

impl InquiryResponse {
    /// Parses an INQUIRY response; shorter than 36 bytes is refused. The
    /// vendor-specific and reserved fields reach to byte 54, so a response
    /// of 36 to 53 bytes is outside what this parser reads.
    pub fn from_bytes(data: &[u8]) -> (r: Result<Self, String>)
        requires
            data@.len() < 36 || data@.len() >= 54,
        ensures
            r is Err <==> data@.len() < 36,
            r matches Err(msg) ==> msg@ == "Inquiry response too short"@,
            r matches Ok(resp) ==> inquiry_fields(data@, resp),
    {
        if data.len() < 36 {
            return Err("Inquiry response too short".to_owned());
        }
        let b0 = data[0];
        let b1 = data[1];
        let qualifier = (b0 >> 5u8) & 0x07;
        let device_type = b0 & 0x1F;
        let removable = (b1 & 0x80) != 0;
        assert(qualifier == b0 / 32 && device_type == b0 % 32 && (removable == (b1 >= 0x80))) by (bit_vector)
            requires
                qualifier == (b0 >> 5u8) & 0x07,
                device_type == b0 & 0x1F,
                removable == ((b1 & 0x80) != 0),
        ;
        let oem = [data[3], data[4], data[5], data[6], data[7], data[8], data[9], data[10]];
        let product = [
            data[11], data[12], data[13], data[14], data[15], data[16], data[17], data[18],
            data[19], data[20], data[21], data[22], data[23], data[24], data[25], data[26],
        ];
        let revision = [data[27], data[28], data[29], data[30]];
        let vendor = [
            data[31], data[32], data[33], data[34], data[35], data[36], data[37], data[38], data[39], data[40],
            data[41], data[42], data[43], data[44], data[45], data[46], data[47], data[48], data[49], data[50],
        ];
        let reserved = [data[51], data[52], data[53]];
        assert(oem@ =~= data@.subrange(3, 11));
        assert(product@ =~= data@.subrange(11, 27));
        assert(revision@ =~= data@.subrange(27, 31));
        assert(vendor@ =~= data@.subrange(31, 51));
        assert(reserved@ =~= data@.subrange(51, 54));
        Ok(InquiryResponse {
            peripheral_qualifier: qualifier,
            peripheral_device_type: device_type,
            removable_medium: removable,
            ansi_version: data[2],
            oem_identification: oem,
            product_identification: product,
            product_revision_level: revision,
            vendor_specific: vendor,
            reserved,
            additional_length: data[4],
        })
    }
}

} // verus!
