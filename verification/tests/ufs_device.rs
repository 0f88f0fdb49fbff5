use sahne_karnal::ufs::{UfsDevice, UfsError};

#[test]
fn test_ufs_device_new() {
    let device_result = UfsDevice::new("/dev/test_ufs", 4096 * 1024, 0x10000000, 0, 0x0300);
    assert!(device_result.is_ok());
    let device = device_result.unwrap();
    assert_eq!(device.device_path, "/dev/test_ufs");
    assert_eq!(device.is_open, false);
    assert_eq!(device.device_size, 4096 * 1024);
    assert_eq!(device.ufs_version, 0x0300);
}

#[test]
fn test_ufs_device_open_close() {
    let mut device = UfsDevice::new("/dev/test_ufs", 4096 * 1024, 0x10000000, 0, 0x0300).unwrap();
    assert!(!device.is_open);
    assert!(device.open().is_ok());
    assert!(device.is_open);
    assert!(device.close().is_ok());
    assert!(!device.is_open);
}

#[test]
fn test_ufs_device_read_write() {
    let mut device = UfsDevice::new("/dev/test_ufs", 4096 * 1024, 0x10000000, 0, 0x0300).unwrap();
    assert!(device.open().is_ok());

    let address = 0;
    let mut read_buffer = [0u8; 512];
    let write_buffer = [0xAAu8; 512];

    assert!(device.write(address, &write_buffer).is_ok());
    assert!(device.read(address, &mut read_buffer).is_ok());
    assert_eq!(read_buffer, write_buffer);

    assert!(device.close().is_ok());
}

#[test]
fn test_ufs_device_read_write_invalid_address() {
    let mut device = UfsDevice::new("/dev/test_ufs", 4096, 0x10000000, 0, 0x0300).unwrap();
    assert!(device.open().is_ok());
    let address = 4096;
    let mut buffer = [0u8; 512];
    assert!(device.read(address, &mut buffer).is_err());
    assert!(device.write(address, &buffer).is_err());
    assert!(device.close().is_ok());
}

#[test]
fn test_ufs_device_read_write_closed() {
    let mut device = UfsDevice::new("/dev/test_ufs", 4096, 0x10000000, 0, 0x0300).unwrap();
    let address = 0;
    let mut buffer = [0u8; 512];
    assert!(device.read(address, &mut buffer).is_err());
    assert!(device.write(address, &buffer).is_err());
}

#[test]
fn ufs_read_returns_what_was_written_on_version_four() {
    let mut device = UfsDevice::new("/dev/u4", 1 << 20, 0x2000_0000, 1, 0x0400).unwrap();
    device.open().unwrap();
    let data: Vec<u8> = (0..1024u32).map(|i| (i * 7) as u8).collect();
    assert_eq!(device.write(1024, &data).unwrap(), 1024);
    let mut back = vec![0u8; 1024];
    assert_eq!(device.read(1024, &mut back).unwrap(), 1024);
    assert_eq!(back, data);
    let mut untouched = vec![9u8; 512];
    device.read(0, &mut untouched).unwrap();
    assert!(untouched.iter().all(|b| *b == 0));
}

#[test]
fn ufs_misaligned_requests_are_refused() {
    let mut device = UfsDevice::new("/dev/u", 4096, 0, 0, 0x0200).unwrap();
    device.open().unwrap();
    let mut buf = [0u8; 100];
    assert!(matches!(device.read(0, &mut buf), Err(UfsError::InvalidParameter)));
    let mut buf = [0u8; 512];
    assert!(matches!(device.read(3, &mut buf), Err(UfsError::InvalidParameter)));
    assert!(matches!(device.write(3, &buf), Err(UfsError::InvalidParameter)));
}

#[test]
fn ufs_unsupported_version_is_refused() {
    let mut device = UfsDevice::new("/dev/u", 4096, 0, 0, 0x0350).unwrap();
    device.open().unwrap();
    let mut buf = [0u8; 512];
    assert!(matches!(device.read(0, &mut buf), Err(UfsError::UnsupportedUFSVersion)));
    assert!(matches!(device.write(0, &buf), Err(UfsError::UnsupportedUFSVersion)));
}

#[test]
fn ufs_closed_and_out_of_range_errors() {
    let mut device = UfsDevice::new("/dev/u", 4096, 0, 0, 0x0300).unwrap();
    let mut buf = [0u8; 512];
    assert!(matches!(device.read(0, &mut buf), Err(UfsError::ReadError)));
    assert!(matches!(device.write(0, &buf), Err(UfsError::WriteError)));
    device.open().unwrap();
    assert!(matches!(device.read(4096, &mut buf), Err(UfsError::InvalidAddress)));
    assert_eq!(device.get_size(), 4096);
}
