use sahne_karnal::usb_msc::{
    command_outcome, command_succeeded, configure_next, configure_request, control_plan, data_phase_in,
    device_connected, expected_status, inquiry_cbw, msc_get_max_lun, msc_get_max_lun_request, msc_reset_request,
    parse_capacity, read_10_cbw, read_capacity_10_cbw, test_unit_ready_cbw, CommandBlockWrapper, CommandOutcome,
    CommandStatusWrapper, ConfigureStage, ControlRequest, DataStage, CBW_SIGNATURE, CSW_SIGNATURE,
};

#[test]
fn msc_command_wrapper_bytes() {
    let cbw = CommandBlockWrapper::new();
    assert_eq!(cbw.dcbw_signature, CBW_SIGNATURE);
    assert_eq!(cbw.dcbw_tag, 0x1234_5678);
    let bytes = cbw.to_bytes();
    assert_eq!(&bytes[..8], b"USBCxV4\x12");
    assert_eq!(&bytes[8..], &[0u8; 23]);
    let tur = test_unit_ready_cbw();
    let b = tur.to_bytes();
    assert_eq!(&b[4..8], &[0x34, 0x12, 0, 0]);
    assert_eq!((b[12], b[13], b[14], b[15]), (0x80, 0, 6, 0x00));
}

#[test]
fn msc_scsi_commands() {
    let inq = inquiry_cbw();
    assert_eq!(inq.dcbw_tag, 0x5678);
    assert_eq!(inq.dcbw_data_transfer_length, 36);
    assert_eq!(&inq.cbw_cb[..6], &[0x12, 0, 0, 0, 0, 36]);
    let cap = read_capacity_10_cbw();
    assert_eq!((cap.dcbw_tag, cap.dcbw_data_transfer_length, cap.b_cbw_length), (0x9abc, 8, 10));
    assert_eq!(cap.cbw_cb[0], 0x25);
    let r = read_10_cbw(0x0102_0304, 512, 1).unwrap();
    assert_eq!(r.dcbw_tag, 0xdbaf);
    assert_eq!(r.dcbw_data_transfer_length, 512);
    assert_eq!(&r.cbw_cb[..10], &[0x28, 0, 1, 2, 3, 4, 0, 0, 1, 0]);
    assert_eq!(&r.cbw_cb[10..], &[0u8; 6]);
    assert!(read_10_cbw(0, 512, 2).is_none());
    assert!(read_10_cbw(0, 256, 2).is_some());
    assert!(data_phase_in(&r));
    assert!(!data_phase_in(&CommandBlockWrapper::new()));
}

#[test]
fn msc_status_wrappers() {
    let bytes: [u8; 13] = [0x55, 0x53, 0x42, 0x53, 0x34, 0x12, 0, 0, 4, 0, 0, 0, 1];
    let csw = CommandStatusWrapper::from_bytes(&bytes);
    assert_eq!(csw.dcsv_signature, CSW_SIGNATURE);
    assert!(csw.signature_valid());
    assert_eq!(csw.dcsv_tag, 0x1234);
    assert_eq!(csw.dcsv_data_residue, 4);
    assert_eq!(command_outcome(&csw), CommandOutcome::Failed);
    assert_eq!(command_outcome(&CommandStatusWrapper { bcs_status: 0, ..csw }), CommandOutcome::Passed);
    assert_eq!(command_outcome(&CommandStatusWrapper { bcs_status: 2, ..csw }), CommandOutcome::PhaseError);
    assert_eq!(command_outcome(&CommandStatusWrapper { bcs_status: 9, ..csw }), CommandOutcome::Unexpected(9));
    assert!(!CommandStatusWrapper { dcsv_signature: 1, ..csw }.signature_valid());
    let passed = CommandStatusWrapper { bcs_status: 0, ..csw };
    assert!(command_succeeded(true, Some(passed)));
    assert!(!command_succeeded(false, Some(passed)));
    assert!(!command_succeeded(true, None));
    assert!(!command_succeeded(true, Some(csw)));
    let expected = expected_status(&inquiry_cbw());
    assert_eq!(expected, CommandStatusWrapper { dcsv_signature: CSW_SIGNATURE, dcsv_tag: 0x5678, dcsv_data_residue: 0, bcs_status: 0 });
    assert_eq!(CommandStatusWrapper::new().dcsv_signature, CSW_SIGNATURE);
}

#[test]
fn msc_capacity_and_status() {
    assert_eq!(parse_capacity(&[0, 0x1f, 0xff, 0xff, 0, 0, 2, 0]), (0x001f_ffff, 512));
    assert!(device_connected(1));
    assert!(device_connected(3));
    assert!(!device_connected(2));
}

#[test]
fn msc_control_requests() {
    let reset = msc_reset_request();
    assert_eq!(reset, ControlRequest { request_type: 0x21, request: 0xff, value: 0, index: 0, length: 0 });
    let plan = control_plan(&reset);
    assert_eq!(plan.setup, [0x21, 0xff, 0, 0, 0, 0, 0, 0]);
    assert_eq!(plan.data, DataStage::NoData);
    assert!(plan.status_in);
    let lun = control_plan(&msc_get_max_lun_request());
    assert_eq!(lun.setup, [0xa1, 0xfe, 0, 0, 0, 0, 1, 0]);
    assert_eq!(lun.data, DataStage::In(1));
    assert!(!lun.status_in);
    let out = control_plan(&ControlRequest { request_type: 0x21, request: 9, value: 0, index: 0, length: 3 });
    assert_eq!(out.data, DataStage::Out(3));
    assert_eq!(msc_get_max_lun(true, 3), 3);
    assert_eq!(msc_get_max_lun(false, 3), 0);
}

#[test]
fn msc_device_set_up() {
    let mut stage = ConfigureStage::DeviceDescriptor;
    assert_eq!(configure_request(stage).unwrap().value, 0x0100);
    stage = configure_next(stage, true, &[]);
    assert_eq!(stage, ConfigureStage::SetAddress);
    assert_eq!(configure_request(stage).unwrap(), ControlRequest { request_type: 0, request: 5, value: 7, index: 0, length: 0 });
    stage = configure_next(stage, true, &[]);
    assert_eq!(stage, ConfigureStage::ConfigurationHeader);
    assert_eq!(configure_request(stage).unwrap().length, 9);
    stage = configure_next(stage, true, &[9, 2, 32, 0, 1, 1, 0, 0x80, 50]);
    assert_eq!(stage, ConfigureStage::FullConfiguration { length: 32 });
    assert_eq!(configure_request(stage).unwrap().length, 32);
    stage = configure_next(stage, true, &[]);
    assert_eq!(stage, ConfigureStage::SetConfiguration);
    assert_eq!(configure_request(stage).unwrap().value, 1);
    stage = configure_next(stage, true, &[]);
    assert_eq!(stage, ConfigureStage::Done(true));
    assert_eq!(configure_request(stage), None);
    assert_eq!(configure_next(stage, false, &[]), ConfigureStage::Done(true));
}

#[test]
fn msc_device_set_up_failures() {
    assert_eq!(configure_next(ConfigureStage::SetAddress, false, &[]), ConfigureStage::Done(false));
    assert_eq!(configure_next(ConfigureStage::ConfigurationHeader, true, &[9, 2, 8, 0]), ConfigureStage::Done(false));
    assert_eq!(configure_next(ConfigureStage::ConfigurationHeader, true, &[9, 2, 1, 1]), ConfigureStage::Done(false));
    assert_eq!(
        configure_next(ConfigureStage::ConfigurationHeader, true, &[9, 2, 0, 1]),
        ConfigureStage::FullConfiguration { length: 256 }
    );
}
