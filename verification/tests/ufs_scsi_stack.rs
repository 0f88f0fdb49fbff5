use sahne_karnal::ufs_scsi::{
    InquiryFlags, InquiryResponse, ScsiCommand, ScsiCommandDescriptorBlock, ScsiError, UfsDevice, UfsError,
    INQUIRY_FLAG_CMDQUE, INQUIRY_FLAG_SYNC,
};

const BASE: u64 = 0x2000_0000;

#[test]
fn scsi_ten_byte_commands() {
    let r = ScsiCommandDescriptorBlock::read10(0x0102_0304, 0x0506);
    assert_eq!(r.command, ScsiCommand::Read10);
    assert_eq!(r.cdb, [0x28, 0, 1, 2, 3, 4, 0, 5, 6, 0, 0, 0, 0, 0, 0, 0]);
    let w = ScsiCommandDescriptorBlock::write10(7, 1);
    assert_eq!(w.command, ScsiCommand::Write10);
    assert_eq!(w.cdb, [0x2a, 0, 0, 0, 0, 7, 0, 0, 1, 0, 0, 0, 0, 0, 0, 0]);
}

#[test]
fn scsi_sixteen_byte_commands() {
    let r = ScsiCommandDescriptorBlock::read16(0x0102_0304_0506_0708, 0x0a0b_0c0d);
    assert_eq!(r.command, ScsiCommand::Read16);
    assert_eq!(r.cdb, [0x88, 0, 1, 2, 3, 4, 5, 6, 7, 8, 0x0a, 0x0b, 0x0c, 0x0d, 0, 0]);
    let w = ScsiCommandDescriptorBlock::write16(1, 2);
    assert_eq!(w.cdb, [0x8a, 0, 0, 0, 0, 0, 0, 0, 0, 1, 0, 0, 0, 2, 0, 0]);
    let i = ScsiCommandDescriptorBlock::inquiry(true, 0x80, 0x0160);
    assert_eq!(i.command, ScsiCommand::Inquiry);
    assert_eq!(i.cdb, [0x12, 1, 0x80, 0x01, 0x60, 0, 0, 0, 0, 0, 0, 0, 0, 0, 0, 0]);
}

#[test]
fn scsi_inquiry_flags() {
    assert!(InquiryFlags::from_bits(0x01).is_none());
    assert!(InquiryFlags::from_bits(0x02).is_none());
    let f = InquiryFlags::from_bits(INQUIRY_FLAG_CMDQUE | INQUIRY_FLAG_SYNC).unwrap();
    assert_eq!(f.bits(), 0x48);
    assert!(f.contains(InquiryFlags::from_bits(INQUIRY_FLAG_SYNC).unwrap()));
    assert!(!f.contains(InquiryFlags::from_bits(0x80).unwrap()));
    assert!(f.contains(InquiryFlags::from_bits(0).unwrap()));
}

fn inquiry_data() -> [u8; 96] {
    let mut d = [0u8; 96];
    d[0] = 0b0010_0000;
    d[1] = 6;
    d[2] = 2;
    d[3] = 0x40;
    d[4] = 91;
    d[8..16].copy_from_slice(b"SAHNE   ");
    d[16..32].copy_from_slice(b"UFS STORAGE     ");
    d[32..36].copy_from_slice(b"0100");
    d
}

#[test]
fn scsi_inquiry_response() {
    let d = inquiry_data();
    let r = InquiryResponse::from_bytes(&d).unwrap();
    assert_eq!((r.peripheral_qualifier, r.peripheral_device_type), (1, 0));
    assert_eq!((r.version, r.response_data_format, r.additional_length), (6, 2, 91));
    assert_eq!(r.flags.bits(), 0x40);
    assert_eq!(&r.vendor_identification, b"SAHNE   ");
    assert_eq!(&r.product_identification, b"UFS STORAGE     ");
    assert_eq!(&r.product_revision_level, b"0100");
    assert_eq!(InquiryResponse::from_bytes(&d[..35]), Err(ScsiError::InvalidResponse));
    let mut bad = d;
    bad[3] = 0x41;
    assert_eq!(InquiryResponse::from_bytes(&bad), Err(ScsiError::InvalidResponse));
}

#[test]
fn scsi_device_requests() {
    assert!(matches!(UfsDevice::new("/dev/sda", 4096, BASE, 0, 0x0300, 0xffff), Err(UfsError::MphyError(_))));
    let mut d = UfsDevice::new("/dev/sda", 1 << 16, BASE, 1, 0x0300, 0x0300).unwrap();
    assert_eq!(d.get_size(), 1 << 16);
    assert!(matches!(d.read(0, 512), Err(UfsError::ReadError)));
    assert!(matches!(d.write(0, &[0u8; 512]), Err(UfsError::WriteError)));
    d.open().unwrap();
    assert!(matches!(d.read(1 << 16, 512), Err(UfsError::InvalidAddress)));
    assert!(matches!(d.write(0, &[0u8; 3]), Err(UfsError::InvalidParameter)));
    let t = d.read(0x400, 0x600).unwrap();
    assert_eq!(t.cdb.cdb, ScsiCommandDescriptorBlock::read10(2, 3).cdb);
    assert_eq!((t.port.register, t.port.length), (BASE + 4, 0x600));
    let t = d.write(0x200, &[1u8; 512]).unwrap();
    assert_eq!(t.cdb.cdb, ScsiCommandDescriptorBlock::write10(1, 1).cdb);
    d.close().unwrap();
    assert!(!d.is_open);
}

#[test]
fn scsi_device_versions_and_inquiry() {
    let mut d = UfsDevice::new("/dev/sdb", 1 << 16, BASE, 1, 0x0400, 0x0400).unwrap();
    d.open().unwrap();
    assert_eq!(d.read(512, 512).unwrap().cdb.cdb, ScsiCommandDescriptorBlock::read16(1, 1).cdb);
    assert_eq!(d.write(1024, &[0u8; 1024]).unwrap().cdb.cdb, ScsiCommandDescriptorBlock::write16(2, 2).cdb);
    let mut odd = UfsDevice::new("/dev/sdc", 1 << 16, BASE, 1, 0x0500, 0x0400).unwrap();
    odd.open().unwrap();
    assert!(matches!(odd.read(0, 512), Err(UfsError::UnsupportedUFSVersion)));
    let t = d.inquiry_command().unwrap();
    assert_eq!(t.cdb.cdb, ScsiCommandDescriptorBlock::inquiry(false, 0, 96).cdb);
    assert_eq!(t.port.length, 96);
    let r = d.inquiry(&inquiry_data()).unwrap();
    assert_eq!(r.additional_length, 91);
    let mut bad = inquiry_data();
    bad[3] = 0x03;
    assert!(matches!(d.inquiry(&bad), Err(UfsError::ScsiError(ScsiError::InvalidResponse))));
}

#[test]
fn write16_fields_decode_back() {
    let lba: u64 = 0x0123_4567_89AB_CDEF;
    let count: u32 = 0xDEAD_BEEF;
    let w = ScsiCommandDescriptorBlock::write16(lba, count);
    assert_eq!(w.command, ScsiCommand::Write16);
    assert_eq!(w.cdb[0], 0x8A);
    assert_eq!(w.cdb[1], 0);
    assert_eq!(u64::from_be_bytes(w.cdb[2..10].try_into().unwrap()), lba);
    assert_eq!(u32::from_be_bytes(w.cdb[10..14].try_into().unwrap()), count);
    assert_eq!(&w.cdb[14..16], &[0, 0]);
}
