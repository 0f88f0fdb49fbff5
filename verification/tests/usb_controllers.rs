use sahne_karnal::usb::{udelay, MmioAddress, UsbConnectorType, UsbSpeed, XhciController};
use sahne_karnal::usbxhci::{
    delay_microseconds, OperationalRegisters, ResetWait, UsbCommandRegister, UsbStatusRegister, XhciDriver, XhciError,
    RESET_WAIT_POLLS,
};

#[test]
fn usb_controller_registers() {
    let c = XhciController::new(MmioAddress::new(0x1000));
    assert_eq!(MmioAddress::new(0x1000).offset(3).address, 0x100c);
    let w = c.init_writes();
    assert_eq!((w[0].0.address, w[0].1), (0x1000, 1));
    assert_eq!((w[1].0.address, w[1].1), (0x1000, 0));
    assert_eq!((w[2].0.address, w[2].1), (0x1008, 1));
    assert_eq!(c.status_register().address, 0x1004);
    assert_eq!(c.port_status_register(1).address, 0x1000 + 4 * 0x410);
    assert_eq!(udelay(7), 7000);
}

#[test]
fn usb_controller_bring_up() {
    let mut c = XhciController::new(MmioAddress::new(0x1000));
    assert_eq!(c.initialize(2), Err("XHCI kontrolcüsü başlatılamadı."));
    assert!(c.connected_devices.is_empty());
    assert_eq!(c.initialize(1), Ok(()));
    assert_eq!(c.connected_devices.len(), 2);
    assert_eq!(c.connected_devices[0].address, 1);
    assert_eq!(c.connected_devices[0].speed, UsbSpeed::FullSpeed);
    assert_eq!(c.connected_devices[1].address, 2);
    assert_eq!(c.connected_devices[1].speed, UsbSpeed::HighSpeed);
}

#[test]
fn usb_port_status() {
    assert_eq!(XhciController::get_device_speed(0), UsbSpeed::LowSpeed);
    assert_eq!(XhciController::get_device_speed(1 << 10), UsbSpeed::FullSpeed);
    assert_eq!(XhciController::get_device_speed(2 << 10), UsbSpeed::HighSpeed);
    assert_eq!(XhciController::get_device_speed(3 << 10), UsbSpeed::SuperSpeed);
    assert_eq!(XhciController::get_connector_type(4), UsbConnectorType::TypeA);
    assert_eq!(XhciController::get_connector_type(5), UsbConnectorType::TypeC);
    let d = XhciController::handle_device_connection(3, 2 << 10);
    assert_eq!((d.address, d.speed, d.connector_type), (0, UsbSpeed::HighSpeed, UsbConnectorType::TypeC));
    let c = XhciController::new(MmioAddress::new(0));
    assert_eq!(c.get_device_descriptor(), vec![0x12, 0x01, 0x10, 0x02, 0x34, 0x12, 0x78, 0x56]);
    assert_eq!(c.get_config_descriptor()[2], 0x20);
    assert_eq!(c.read_data(1, 0x81, 3), Ok(vec![0, 0, 0]));
}

#[test]
fn xhci_command_register_bits() {
    let mut cmd = UsbCommandRegister { bits: 0xf0 };
    assert_eq!(cmd.read_run_stop(), 0);
    cmd.set_run_stop(1);
    assert_eq!(cmd.bits, 0xf1);
    cmd.set_hcrst(3);
    assert_eq!(cmd.bits, 0xf3);
    assert_eq!(cmd.read_hcrst(), 1);
    cmd.set_run_stop(2);
    assert_eq!(cmd.bits, 0xf2);
    let reset = XhciDriver::reset_controller(UsbCommandRegister { bits: 0x11 });
    assert_eq!(reset.bits, 0x13);
    let started = XhciDriver::start_controller(UsbCommandRegister { bits: 0x10 });
    assert_eq!(started.bits % 2, 1);
    assert_eq!(UsbStatusRegister { bits: 3 }.read_hcrst(), 1);
}

#[test]
fn xhci_reset_wait() {
    let mut w = ResetWait::new();
    assert_eq!(w.polls_left, RESET_WAIT_POLLS);
    assert_eq!(w.step(UsbStatusRegister { bits: 1 }), None);
    assert_eq!(w.step(UsbStatusRegister { bits: 0 }), Some(Ok(())));
    let mut last = ResetWait { polls_left: 1 };
    assert_eq!(last.step(UsbStatusRegister { bits: 1 }), Some(Err(XhciError::InitializationError)));
    assert_eq!(delay_microseconds(10), 10_000);
}

#[test]
fn xhci_driver_registers_and_data() {
    let mut d = XhciDriver::new(0x2000);
    let regs = d.get_operational_registers();
    assert_eq!(regs, OperationalRegisters::new(0x2000));
    assert_eq!((regs.usb_command(), regs.usb_status()), (0x2000, 0x2004));
    assert_eq!(d.send_data(1, 2, &[1, 2]), Ok(()));
    assert_eq!(d.receive_data(1, 0x81, 2), Ok(vec![0, 0]));
    assert_eq!(d.get_connected_devices().len(), 2);
}
