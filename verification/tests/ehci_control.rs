use sahne_karnal::ehci::{
    new_device_step, other_port_changes, port_change, port_reset_value, port_scan_action, request_kind,
    setup_packet, ControlStep, ControlTransfer, EhciRegisters, HccParams, HcsParams, LineStatus,
    NewDeviceStep, PortChange, PortScan, PortSpeed, PortStatusControlFlags, RequestKind, TransferError,
    CONTROL_TRANSFER_POLLS, PORT_CONNECT_STATUS_CHANGE, PORT_CURRENT_CONNECT_STATUS, PORT_ENABLED_DISABLED,
    PORT_OWNER, PORT_RESET,
};

#[test]
fn ehci_capability_fields() {
    let hcs = HcsParams { bits: 0x0004_3214 };
    assert_eq!(hcs.port_count(), 4);
    assert_eq!(hcs.companion_controller_count(), 4);
    assert_eq!(hcs.ports_per_companion_controller(), 3);
    let hcc = HccParams { bits: 0x00ab_0000 };
    assert_eq!(hcc.ext_cap_pointer(), 0xab);
}

#[test]
fn ehci_port_fields() {
    assert_eq!(PortStatusControlFlags { bits: 0 }.speed(), PortSpeed::FullSpeed);
    assert_eq!(PortStatusControlFlags { bits: 1 << 26 }.speed(), PortSpeed::LowSpeed);
    assert_eq!(PortStatusControlFlags { bits: 2 << 26 }.speed(), PortSpeed::HighSpeed);
    assert_eq!(PortStatusControlFlags { bits: 3 << 26 }.speed(), PortSpeed::Unknown);
    assert_eq!(PortStatusControlFlags { bits: 0 }.line_status(), LineStatus::SE0);
    assert_eq!(PortStatusControlFlags { bits: 1 << 10 }.line_status(), LineStatus::KState);
    assert_eq!(PortStatusControlFlags { bits: 2 << 10 }.line_status(), LineStatus::JState);
    assert_eq!(PortStatusControlFlags { bits: 3 << 10 }.line_status(), LineStatus::Undefined);
    assert!(PortStatusControlFlags { bits: 0x3 }.contains(0x2));
    assert!(!PortStatusControlFlags { bits: 0x1 }.contains(0x3));
}

#[test]
fn ehci_register_layout() {
    let regs = EhciRegisters::new(0x1000, 0x20);
    assert_eq!(regs.operational_base, 0x1020);
    assert_eq!(regs.hci_version(), 0x1002);
    assert_eq!(regs.hcs_params(), 0x1004);
    assert_eq!(regs.hcc_params(), 0x1008);
    assert_eq!(regs.usbcmd(), 0x1020);
    assert_eq!(regs.usbsts(), 0x1024);
    assert_eq!(regs.usbintren(), 0x1028);
    assert_eq!(regs.configflag(), 0x1060);
    assert_eq!(regs.portsc(1), 0x1064);
    assert_eq!(regs.portsc(3), 0x106c);
    let wrapped = EhciRegisters::new(usize::MAX, 2);
    assert_eq!(wrapped.operational_base, 1);
}

#[test]
fn ehci_port_scan() {
    assert_eq!(port_scan_action(PORT_CONNECT_STATUS_CHANGE), PortScan::ClearConnectChange);
    assert_eq!(
        port_scan_action(PORT_CONNECT_STATUS_CHANGE | PORT_CURRENT_CONNECT_STATUS),
        PortScan::ClearConnectChange
    );
    assert_eq!(port_scan_action(PORT_CURRENT_CONNECT_STATUS), PortScan::AlreadyConnected);
    assert_eq!(port_scan_action(0), PortScan::Empty);
    assert_eq!(port_change(PORT_CURRENT_CONNECT_STATUS), PortChange::Connected);
    assert_eq!(port_change(0x2), PortChange::Removed);
    assert_eq!(other_port_changes(0xffff_ffff), 0x1e_0000);
    assert_eq!(other_port_changes(0x1_0001), 0);
    assert_eq!(port_reset_value(0x1), 0x11);
    assert_eq!(port_reset_value(PORT_RESET), PORT_RESET);
}

#[test]
fn ehci_new_device_steps() {
    assert_eq!(new_device_step(0), NewDeviceStep::NotEnabled);
    assert_eq!(new_device_step(PORT_ENABLED_DISABLED | PORT_OWNER), NewDeviceStep::Companion);
    assert_eq!(
        new_device_step(PORT_ENABLED_DISABLED | (2 << 26)),
        NewDeviceStep::Enumerate { speed: PortSpeed::HighSpeed, address: 1 }
    );
}

#[test]
fn ehci_requests() {
    assert_eq!(request_kind(0x80), RequestKind::Standard);
    assert_eq!(request_kind(0x21), RequestKind::Class);
    assert_eq!(request_kind(0xc0), RequestKind::Vendor);
    assert_eq!(request_kind(0x60), RequestKind::Reserved);
    assert_eq!(setup_packet(0x80, 6, 0x0100, 0, 18), [0x80, 6, 0x00, 0x01, 0, 0, 18, 0]);
    assert_eq!(setup_packet(0x21, 0xff, 0x1234, 0xabcd, 0x0201), [0x21, 0xff, 0x34, 0x12, 0xcd, 0xab, 0x01, 0x02]);
}

#[test]
fn ehci_control_transfer_completes() {
    let mut t = ControlTransfer::new(1, 0x80, 6, 0x0100, 0, 18, true, 64);
    assert!(t.is_in());
    assert!(!t.copies_out());
    assert_eq!(t.setup(), [0x80, 6, 0x00, 0x01, 0, 0, 18, 0]);
    assert_eq!(t.step(0), ControlStep::Poll);
    assert_eq!(t.remaining_polls, CONTROL_TRANSFER_POLLS - 1);
    assert_eq!(t.step(0x1 | 0x4), ControlStep::Finish { clear: 0x1, result: Ok(18) });
}

#[test]
fn ehci_control_transfer_failures() {
    let mut t = ControlTransfer::new(1, 0x80, 6, 0x0100, 0, 18, true, 64);
    assert_eq!(
        t.step(0x2),
        ControlStep::Finish { clear: 0x2, result: Err(TransferError::TransactionError) }
    );
    let mut small = ControlTransfer::new(1, 0x80, 6, 0x0100, 0, 18, true, 8);
    assert_eq!(
        small.step(0x1),
        ControlStep::Finish { clear: 0x1, result: Err(TransferError::TransactionError) }
    );
    let mut out = ControlTransfer::new(1, 0x00, 9, 1, 0, 4, true, 2);
    assert!(out.copies_out());
    assert_eq!(out.step(0x1), ControlStep::Finish { clear: 0x1, result: Ok(4) });
    let mut late = ControlTransfer::new(1, 0x80, 6, 0, 0, 0, false, 0);
    late.remaining_polls = 2;
    assert_eq!(late.step(0), ControlStep::Poll);
    assert_eq!(late.step(0), ControlStep::Poll);
    assert_eq!(late.step(0), ControlStep::Finish { clear: 0, result: Err(TransferError::Timeout) });
    assert_eq!(late.step(0x1), ControlStep::Finish { clear: 0, result: Err(TransferError::Timeout) });
}

#[test]
fn controller_start_bits() {
    assert!(sahne_karnal::ehci::reset_in_progress(0x2));
    assert!(!sahne_karnal::ehci::reset_in_progress(0x1));
    assert_eq!(sahne_karnal::ehci::run_command(0x80), 0x81);
    assert!(sahne_karnal::ehci::halted(0x1000));
    assert!(!sahne_karnal::ehci::halted(0x0fff));
    assert!(sahne_karnal::ehci::port_reset_in_progress(0x10));
    assert!(!sahne_karnal::ehci::port_reset_in_progress(0x0));
    assert_eq!(sahne_karnal::ehci::async_schedule_command(0x1), 0x21);
}
