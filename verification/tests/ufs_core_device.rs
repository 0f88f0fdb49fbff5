use sahne_karnal::ufs_core::{
    parse_device_descriptor, DescriptorError, UfsDevice, UfsError,
};

const DESCRIPTOR: [u8; 64] = [
    0x36, 0x00, 0x01, 0x02, 0x00, 0x01, 0x00, 0x04, 0x00, 0x05, 0x00, 0x06, 0x00,
    0x54, 0x65, 0x73, 0x74, 0x00, 0x50, 0x72, 0x6f, 0x64, 0x00, 0x53, 0x65, 0x72, 0x69, 0x61, 0x6c, 0x00,
    0x01, 0x02,
    0x00, 0x00, 0x00, 0x00, 0x00, 0x00, 0x00, 0x00, 0x00, 0x00, 0x00, 0x00, 0x00, 0x00, 0x00, 0x00,
    0x00, 0x00, 0x00, 0x00, 0x00, 0x00, 0x00, 0x00, 0x00, 0x00, 0x00, 0x00, 0x00, 0x00, 0x00, 0x00,
];

#[test]
fn test_new_device() {
    let device = UfsDevice::new("/dev/test_ufs", 1024);
    assert_eq!(device.device_path, "/dev/test_ufs");
    assert_eq!(device.is_open, false);
    assert_eq!(device.get_size(), 1024);
    assert_eq!(device.get_manufacturer(), "");
    assert_eq!(device.get_product_name(), "");
    assert_eq!(device.get_serial_number(), "");
    assert_eq!(device.get_ufs_version(), 0);
}

#[test]
fn test_open_close_device() {
    let mut device = UfsDevice::new("/dev/test_ufs", 1024);
    assert!(!device.is_open);
    assert!(device.open().is_ok());
    assert!(device.is_open);
    assert!(device.open().is_ok());
    assert!(device.close().is_ok());
    assert!(!device.is_open);
    assert!(device.close().is_ok());
}

#[test]
fn test_read_write_device() {
    let mut device = UfsDevice::new("/dev/test_ufs", 4096);
    assert!(device.open().is_ok());

    let read_address = 1024;
    let mut read_buffer = [0u8; 512];
    let read_result = device.read(read_address, &mut read_buffer);
    assert!(read_result.is_ok());
    assert_eq!(read_result.unwrap(), 512);
    for (i, byte) in read_buffer.iter().enumerate() {
        assert_eq!(*byte, (read_address + i as u64) as u8);
    }

    let write_address = 2048;
    let write_data = [0xAA, 0xBB, 0xCC, 0xDD];
    let write_result = device.write(write_address, &write_data);
    assert!(write_result.is_ok());
    assert_eq!(write_result.unwrap(), 4);

    assert!(device.close().is_ok());
}

#[test]
fn test_read_write_closed_device() {
    let device = UfsDevice::new("/dev/test_ufs", 1024);
    let mut buffer = [0u8; 10];
    assert!(device.read(0, &mut buffer).is_err());
    assert!(device.write(0, &buffer).is_err());
}

#[test]
fn test_read_write_invalid_address() {
    let mut device = UfsDevice::new("/dev/test_ufs", 1024);
    assert!(device.open().is_ok());
    let mut buffer = [0u8; 10];
    assert!(device.read(2048, &mut buffer).is_err());
    assert!(device.write(2048, &buffer).is_err());
    assert!(device.close().is_ok());
}

#[test]
fn test_read_write_partial_end() {
    let mut device = UfsDevice::new("/dev/test_ufs", 10);
    assert!(device.open().is_ok());
    let mut read_buffer = [0u8; 20];
    let read_result = device.read(5, &mut read_buffer);
    assert!(read_result.is_ok());
    assert_eq!(read_result.unwrap(), 5);
    for i in 0..5 {
        assert_eq!(read_buffer[i], (5 + i) as u8);
    }

    let write_data = [0xAA, 0xBB, 0xCC, 0xDD, 0xEE, 0xFF];
    let write_result = device.write(7, &write_data);
    assert!(write_result.is_ok());
    assert_eq!(write_result.unwrap(), 3);

    assert!(device.close().is_ok());
}

#[test]
fn test_create_device_from_descriptor() {
    let data = DESCRIPTOR;
    let device_result = UfsDevice::from_descriptor_data("/dev/ufs_from_desc", 8192, &data);
    assert!(device_result.is_ok());
    let device = device_result.unwrap();
    assert_eq!(device.get_device_path(), "/dev/ufs_from_desc");
    assert_eq!(device.get_size(), 8192);
    assert_eq!(device.get_manufacturer(), "Test");
    assert_eq!(device.get_product_name(), "Prod");
    assert_eq!(device.get_serial_number(), "Serial");
    assert_eq!(device.get_ufs_version(), 0x0200);
}

#[test]
fn descriptor_fields_are_parsed() {
    let d = parse_device_descriptor(&DESCRIPTOR).unwrap();
    assert_eq!(d.wTotalLength, 54);
    assert_eq!(d.bDescriptorType, 1);
    assert_eq!(d.bcdUFSVersion, 0x0200);
    assert_eq!(d.bNumberOfLogicalUnits, 1);
    assert_eq!(d.bUFSFeatures, 0);
    assert_eq!(d.wManufacturerNameLength, 4);
    assert_eq!(d.wProductNameLength, 5);
    assert_eq!(d.wSerialNumberLength, 6);
    assert_eq!(&d.ManufacturerName[..5], b"Test\0");
    assert_eq!(&d.ProductName[..5], b"Prod\0");
    assert_eq!(&d.SerialNumber[..7], b"Serial\0");
    assert!(d.ManufacturerName[4..].iter().all(|b| *b == 0));
    assert_eq!(d.bConfigurationSetting, 1);
    assert_eq!(d.bMaxNumberSupportedConfigurations, 2);
}

#[test]
fn descriptor_too_short() {
    let r = parse_device_descriptor(&DESCRIPTOR[..5]);
    assert!(matches!(r, Err(DescriptorError::InsufficientData(6, 5))));
}

#[test]
fn descriptor_shorter_than_total_length() {
    let r = parse_device_descriptor(&DESCRIPTOR[..40]);
    assert!(matches!(r, Err(DescriptorError::InvalidDescriptorLength(54, 40))));
}

#[test]
fn descriptor_wrong_type() {
    let mut data = DESCRIPTOR;
    data[2] = 0x02;
    assert!(matches!(parse_device_descriptor(&data), Err(DescriptorError::InvalidDescriptorType(2))));
}

#[test]
fn descriptor_unsupported_version() {
    let mut data = DESCRIPTOR;
    data[3] = 0x05;
    assert!(matches!(parse_device_descriptor(&data), Err(DescriptorError::UnsupportedUFSVersion(0x0500))));
    data[3] = 0x00;
    data[4] = 0x99;
    assert!(matches!(parse_device_descriptor(&data), Err(DescriptorError::UnsupportedUFSVersion(0x0099))));
}

#[test]
fn descriptor_name_cut_at_its_length() {
    let mut data = DESCRIPTOR;
    data[7] = 3;
    let d = parse_device_descriptor(&data).unwrap();
    assert_eq!(&d.ManufacturerName[..4], b"Tes\0");
    assert_eq!(&d.ProductName[..2], b"t\0");
    assert_eq!(&d.SerialNumber[..5], b"Prod\0");
    assert_eq!(d.bConfigurationSetting, b'S');
    assert_eq!(d.bMaxNumberSupportedConfigurations, b'e');
}

#[test]
fn descriptor_names_delimited_by_length_only() {
    let data: [u8; 19] = [
        0x13, 0x00, 0x01, 0x02, 0x02, 0x01, 0x00, 0x01, 0x00, 0x02, 0x00, 0x01, 0x00, 0x41, 0x42, 0x43, 0x44,
        0x07, 0x08,
    ];
    let d = parse_device_descriptor(&data).unwrap();
    assert_eq!(d.wTotalLength, 19);
    assert_eq!(d.bDescriptorType, 1);
    assert_eq!(d.bcdUFSVersion, 0x0202);
    assert_eq!(d.bNumberOfLogicalUnits, 1);
    assert_eq!(d.bUFSFeatures, 0);
    assert_eq!((d.wManufacturerNameLength, d.wProductNameLength, d.wSerialNumberLength), (1, 2, 1));
    assert_eq!(d.ManufacturerName[0], 0x41);
    assert_eq!(&d.ProductName[..2], &[0x42, 0x43]);
    assert_eq!(d.SerialNumber[0], 0x44);
    assert!(d.ManufacturerName[1..].iter().all(|b| *b == 0));
    assert!(d.ProductName[2..].iter().all(|b| *b == 0));
    assert!(d.SerialNumber[1..].iter().all(|b| *b == 0));
    assert_eq!(d.bConfigurationSetting, 7);
    assert_eq!(d.bMaxNumberSupportedConfigurations, 8);
    let device = UfsDevice::from_descriptor_data("/dev/ufs0", 4096, &data).unwrap();
    assert_eq!(device.get_manufacturer(), "A");
    assert_eq!(device.get_product_name(), "BC");
    assert_eq!(device.get_serial_number(), "D");
}

#[test]
fn descriptor_name_runs_past_data() {
    let mut data = [0u8; 16];
    data[..13].copy_from_slice(&DESCRIPTOR[..13]);
    data[0] = 16;
    data[13] = b'a';
    data[14] = b'b';
    data[15] = b'c';
    assert!(matches!(parse_device_descriptor(&data), Err(DescriptorError::InsufficientData(17, 16))));
}

#[test]
fn descriptor_missing_configuration_bytes() {
    let data = &DESCRIPTOR[..31];
    let mut owned = data.to_vec();
    owned[0] = 31;
    assert!(matches!(parse_device_descriptor(&owned), Err(DescriptorError::InsufficientData(32, 31))));
}

#[test]
fn descriptor_before_version_two_has_no_configuration() {
    let mut owned = DESCRIPTOR[..30].to_vec();
    owned[0] = 30;
    owned[3] = 0x01;
    let d = parse_device_descriptor(&owned).unwrap();
    assert_eq!(d.bcdUFSVersion, 0x0100);
    assert_eq!(d.bConfigurationSetting, 0);
    assert_eq!(d.bMaxNumberSupportedConfigurations, 0);
}

#[test]
fn device_from_bad_descriptor_reports_it() {
    let mut data = DESCRIPTOR;
    data[2] = 7;
    let r = UfsDevice::from_descriptor_data("/dev/x", 1, &data);
    assert!(matches!(r, Err(UfsError::DescriptorError(DescriptorError::InvalidDescriptorType(7)))));
}

#[test]
fn device_names_with_invalid_utf8_are_replaced() {
    let mut data = DESCRIPTOR;
    data[13] = 0xFF;
    let device = UfsDevice::from_descriptor_data("/dev/x", 1, &data).unwrap();
    assert_eq!(device.get_manufacturer(), "\u{FFFD}est");
}

#[test]
fn read_pattern_wraps_at_256() {
    let mut device = UfsDevice::new("/dev/x", 1000);
    device.open().unwrap();
    let mut buf = [0u8; 4];
    assert_eq!(device.read(254, &mut buf).unwrap(), 4);
    assert_eq!(buf, [254, 255, 0, 1]);
    assert!(matches!(device.read(1000, &mut buf), Err(UfsError::InvalidAddress)));
    assert!(matches!(device.write(1000, &buf), Err(UfsError::InvalidAddress)));
    device.close().unwrap();
    assert!(matches!(device.read(0, &mut buf), Err(UfsError::ReadError)));
    assert!(matches!(device.write(0, &buf), Err(UfsError::WriteError)));
}

#[test]
fn descriptor_error_converts_into_device_error() {
    let e: UfsError = DescriptorError::ParseError.into();
    assert!(matches!(e, UfsError::DescriptorError(DescriptorError::ParseError)));
}
