use sahne_karnal::ssd::{
    SsdDescriptor, SsdDriver, SsdSystem, ERROR_DEVICE_NOT_FOUND, ERROR_INVALID_PARAMETER, ERROR_IO,
    IDENTIFIED_TOTAL_BLOCKS, NO_ERROR, SSD_BASE_ADDRESS, STATUS_BUSY, STATUS_ERROR,
};

#[test]
fn ssd_registers() {
    let d = SsdDriver::new();
    assert_eq!(d.base_address, 0xabc0_0000);
    assert_eq!(d.register(0x10), 0xabc0_0010);
    assert_eq!(d.initialize(), (10, 1));
    assert_eq!(SsdDriver::lba_words(0x1_2345_6789), (0x2345_6789, 1));
    assert!(SsdDriver::is_busy(STATUS_BUSY));
    assert!(SsdDriver::is_busy(0x3));
    assert!(!SsdDriver::is_busy(STATUS_ERROR));
}

#[test]
fn ssd_sector_transfers() {
    let d = SsdDriver::new();
    let mut words = [0u32; 128];
    words[127] = 0xdead_beef;
    let mut buffer = [1u8; 600];
    assert_eq!(d.read_sector(STATUS_ERROR, &words, &mut buffer), Err("SSD okuma hatası."));
    assert_eq!(buffer, [1u8; 600]);
    let mut small = [1u8; 511];
    assert_eq!(d.read_sector(0, &words, &mut small), Err("Sağlanan arabellek çok küçük."));
    assert_eq!(d.read_sector(0, &words, &mut buffer), Ok(()));
    assert_eq!(&buffer[508..512], &[0xef, 0xbe, 0xad, 0xde]);
    assert_eq!(buffer[0], 0);
    assert_eq!(buffer[512], 1);
    assert_eq!(d.write_sector(&buffer[..100]), Err("Sağlanan arabellek çok küçük."));
    assert_eq!(d.write_sector(&buffer).unwrap(), words);
    assert_eq!(SsdDriver::write_sector_status(STATUS_ERROR), Err("SSD yazma hatası."));
    assert_eq!(SsdDriver::write_sector_status(0), Ok(()));
    assert_eq!(d.identify_raw(STATUS_ERROR, &words, &mut buffer), Err("SSD kimlik alma hatası."));
    assert_eq!(d.identify_raw(0, &words, &mut small), Err("Sağlanan arabellek çok küçük."));
    assert_eq!(d.identify_raw(0, &words, &mut buffer), Ok(()));
}

#[test]
fn ssd_start_up() {
    let mut system = SsdSystem::new();
    assert!(system.needs_driver(b"/dev/ssd0"));
    assert!(!system.needs_driver(&[0xc3]));
    assert_eq!(system.ssd_init(&[0xff, 0xfe], Ok(()), Ok(())), Err(ERROR_INVALID_PARAMETER));
    assert_eq!(system.ssd_init(b"/dev/ssd0", Err(ERROR_IO), Ok(())), Err(ERROR_IO));
    assert!(system.needs_driver(b"/dev/ssd0"));
    let d = system.ssd_init(b"/dev/ssd0", Ok(()), Ok(())).unwrap();
    assert_eq!(
        d,
        SsdDescriptor { device_handle: SSD_BASE_ADDRESS, block_size: 512, total_blocks: IDENTIFIED_TOTAL_BLOCKS }
    );
    assert!(!system.needs_driver(b"/dev/ssd0"));
    // Once up, the same descriptor is handed out whatever else is reported.
    assert_eq!(system.ssd_init(b"/dev/ssd0", Err(ERROR_IO), Err(ERROR_IO)), Ok(d));
    let mut other = SsdSystem::new();
    let d0 = other.ssd_init("/dev/ssçd".as_bytes(), Ok(()), Err(ERROR_IO)).unwrap();
    assert_eq!(d0.total_blocks, 0);
}

#[test]
fn ssd_transfer_bookkeeping() {
    let desc = SsdDescriptor { device_handle: 0, block_size: 512, total_blocks: 10 };
    assert_eq!(SsdSystem::sector(&desc, 100, 4, 0), (100, 0));
    assert_eq!(SsdSystem::sector(&desc, 100, 4, 3), (103, 1536));
    let mut system = SsdSystem::new();
    assert_eq!(system.transfer_result(0, true), NO_ERROR);
    assert_eq!(system.transfer_result(1, false), ERROR_DEVICE_NOT_FOUND);
    system.ssd_init(b"x", Ok(()), Ok(())).unwrap();
    assert_eq!(system.transfer_result(1, true), ERROR_IO);
    assert_eq!(system.transfer_result(2, false), NO_ERROR);
    assert_eq!(SsdSystem::ssd_close(desc), NO_ERROR);
}

#[test]
fn ssd_data_port_readiness() {
    assert_eq!(SsdDriver::data_ready(STATUS_ERROR, 512, "SSD okuma hatası."), Err("SSD okuma hatası."));
    assert_eq!(SsdDriver::data_ready(0, 511, "SSD okuma hatası."), Err("Sağlanan arabellek çok küçük."));
    assert_eq!(SsdDriver::data_ready(STATUS_BUSY, 512, "x"), Ok(()));
}
