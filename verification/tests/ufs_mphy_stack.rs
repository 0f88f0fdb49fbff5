use sahne_karnal::ufs_mphy::scsi::{InquiryResponse, ScsiCommandDescriptorBlock};
use sahne_karnal::ufs_mphy::uniprot::UniprotInstance;
use sahne_karnal::ufs_mphy::{MphyError, MphyInstance, UfsDevice, UfsError};

const BASE: u64 = 0x1000_0000;

#[test]
fn mphy_link_bring_up() {
    assert_eq!(MphyInstance::version_register_address(BASE), BASE);
    assert!(matches!(MphyInstance::new(BASE, 0xffff), Err(MphyError::InitializationError)));
    assert!(matches!(MphyInstance::new(BASE, 0x0099), Err(MphyError::UnsupportedUFSVersion)));
    assert!(matches!(MphyInstance::new(BASE, 0x0401), Err(MphyError::UnsupportedUFSVersion)));
    let m4 = MphyInstance::new(BASE, 0x0400).unwrap();
    let w = m4.init_write();
    assert_eq!((w.address, w.value), (BASE + 8, 0x03));
    let m = MphyInstance::new(BASE, 0x0310).unwrap();
    let w = m.init_write();
    assert_eq!((w.address, w.value), (BASE + 8, 0x01));
    let t = m.send_data(&[1, 2, 3]).unwrap();
    assert_eq!((t.register, t.length), (BASE + 4, 3));
    let t = m.receive_data(512).unwrap();
    assert_eq!((t.register, t.length), (BASE + 4, 512));
}

#[test]
fn mphy_uniprot_commands() {
    let m = MphyInstance::new(BASE, 0x0400).unwrap();
    let u = UniprotInstance::new(BASE, m, 0x0300).unwrap();
    let cdb = ScsiCommandDescriptorBlock::read10(1, 2);
    let t = u.execute_command(&cdb, 1024).unwrap();
    assert_eq!((t.register, t.length), (BASE + 4, 1024));
    let t = u.execute_command_write(&ScsiCommandDescriptorBlock::write16(0, 1), &[0u8; 512]).unwrap();
    assert_eq!(t.length, 512);
}

#[test]
fn mphy_scsi_commands() {
    assert_eq!(ScsiCommandDescriptorBlock::read10(5, 6), ScsiCommandDescriptorBlock::Read10 { lba: 5, block_count: 6 });
    assert_eq!(ScsiCommandDescriptorBlock::write10(5, 6), ScsiCommandDescriptorBlock::Write10 { lba: 5, block_count: 6 });
    assert_eq!(ScsiCommandDescriptorBlock::read16(5, 6), ScsiCommandDescriptorBlock::Read16 { lba: 5, block_count: 6 });
    assert_eq!(ScsiCommandDescriptorBlock::write16(5, 6), ScsiCommandDescriptorBlock::Write16 { lba: 5, block_count: 6 });
    assert_eq!(
        ScsiCommandDescriptorBlock::inquiry(0, 36),
        ScsiCommandDescriptorBlock::Inquiry { lun: 0, allocation_length: 36 }
    );
}

#[test]
fn mphy_inquiry_response() {
    match InquiryResponse::from_bytes(&[0u8; 35]) {
        Err(m) => assert_eq!(m, "Inquiry response too short"),
        Ok(_) => panic!("accepted a short response"),
    }
    let mut data = [0u8; 60];
    data[0] = 0b0110_0101;
    data[1] = 0x80;
    data[2] = 6;
    data[3..11].copy_from_slice(b"SAHNEOEM");
    data[11..27].copy_from_slice(b"UFS-DEVICE-0001 ");
    data[27..31].copy_from_slice(b"1.00");
    let r = InquiryResponse::from_bytes(&data).unwrap();
    assert_eq!(r.peripheral_qualifier, 3);
    assert_eq!(r.peripheral_device_type, 5);
    assert!(r.removable_medium);
    assert_eq!(r.ansi_version, 6);
    assert_eq!(&r.oem_identification, b"SAHNEOEM");
    assert_eq!(&r.product_identification, b"UFS-DEVICE-0001 ");
    assert_eq!(&r.product_revision_level, b"1.00");
    assert_eq!(r.additional_length, data[4]);
}

#[test]
fn mphy_device_requests() {
    assert!(matches!(
        UfsDevice::new("/dev/ufs0", 1 << 20, BASE, 0, 0x0300, 0xffff),
        Err(UfsError::MphyError(MphyError::InitializationError))
    ));
    let mut d = UfsDevice::new("/dev/ufs0", 1 << 20, BASE, 2, 0x0300, 0x0100).unwrap();
    assert_eq!(d.device_path, "/dev/ufs0");
    assert!(!d.is_open);
    assert_eq!(d.get_size(), 1 << 20);
    assert!(matches!(d.read(0, 512), Err(UfsError::ReadError)));
    assert!(matches!(d.write(0, &[0u8; 512]), Err(UfsError::WriteError)));
    assert!(d.open().is_ok());
    assert!(d.open().is_ok());
    assert!(d.is_open);
    assert!(matches!(d.read(1 << 20, 512), Err(UfsError::InvalidAddress)));
    assert!(matches!(d.read(100, 512), Err(UfsError::InvalidParameter)));
    assert!(matches!(d.read(0, 100), Err(UfsError::InvalidParameter)));
    let t = d.read(1024, 1024).unwrap();
    assert_eq!(t.cdb, ScsiCommandDescriptorBlock::Read10 { lba: 2, block_count: 2 });
    assert_eq!((t.port.register, t.port.length), (BASE + 4, 1024));
    let t = d.write(512, &[7u8; 512]).unwrap();
    assert_eq!(t.cdb, ScsiCommandDescriptorBlock::Write10 { lba: 1, block_count: 1 });
    assert!(d.close().is_ok());
    assert!(d.close().is_ok());
    assert!(!d.is_open);
}

#[test]
fn mphy_device_versions() {
    let mut v4 = UfsDevice::new("/dev/ufs4", 1 << 20, BASE, 0, 0x0400, 0x0400).unwrap();
    v4.open().unwrap();
    assert_eq!(v4.read(0, 512).unwrap().cdb, ScsiCommandDescriptorBlock::Read16 { lba: 0, block_count: 1 });
    assert_eq!(v4.write(2048, &[0u8; 1024]).unwrap().cdb, ScsiCommandDescriptorBlock::Write16 { lba: 4, block_count: 2 });
    let mut v31 = UfsDevice::new("/dev/ufs31", 1 << 20, BASE, 0, 0x0310, 0x0400).unwrap();
    v31.open().unwrap();
    assert!(matches!(v31.read(0, 512), Err(UfsError::UnsupportedUFSVersion)));
    assert!(matches!(v31.write(0, &[0u8; 512]), Err(UfsError::UnsupportedUFSVersion)));
}
