use sahne_karnal::usb_io::loongarch::{register_offset, RegisterWrite, UsbDriver, UsbRegister};
use sahne_karnal::usb_io::sparc::{
    register_addresses, usb_controller_init, usb_device_detect, usb_receive_data, usb_send_data,
};

#[test]
fn sparc_controller_bring_up() {
    assert_eq!(register_addresses(), (0xfef0_0000, 0xfef0_0004));
    assert_eq!(usb_controller_init(0x10, 0x11, 0x10), [0x11, 0x10, 0x12]);
    assert_eq!(usb_controller_init(0xffff_ffff, 0xffff_ffff, 0), [0xffff_ffff, 0xffff_fffe, 2]);
    assert!(usb_device_detect(1));
    assert!(!usb_device_detect(6));
}

#[test]
fn sparc_controller_data() {
    let mut buffer = [7u8; 5];
    assert_eq!(usb_receive_data(&mut buffer), 0);
    assert_eq!(buffer, [0u8; 5]);
    assert!(usb_send_data(&[1, 2, 3]));
}

#[test]
fn loongarch_controller_bring_up() {
    let mut d = UsbDriver::new();
    assert!(!d.is_initialized);
    let w = d.init();
    assert!(d.is_initialized);
    assert_eq!(
        w,
        [
            RegisterWrite { register: UsbRegister::Control, value: 1 },
            RegisterWrite { register: UsbRegister::Control, value: 0 },
            RegisterWrite { register: UsbRegister::Endpoint0Config, value: 64 },
            RegisterWrite { register: UsbRegister::InterruptEnable, value: 2 },
        ]
    );
    assert_eq!(register_offset(UsbRegister::Control), 0);
    assert_eq!(register_offset(UsbRegister::InterruptStatus), 20);
    assert_eq!(register_offset(UsbRegister::InterruptClear), 24);
}

#[test]
fn loongarch_controller_interrupts_and_data() {
    assert_eq!(
        UsbDriver::handle_interrupt(0x3),
        Some(RegisterWrite { register: UsbRegister::InterruptStatus, value: 2 })
    );
    assert_eq!(UsbDriver::handle_interrupt(0x5), None);
    assert_eq!(UsbDriver::send_data_endpoint0(&[0x80, 1]), vec![0x80u32, 1]);
    let mut buffer = [0u8; 3];
    assert_eq!(UsbDriver::receive_data_endpoint0(&[0x1ff, 0x42, 0xabcd], &mut buffer), 3);
    assert_eq!(buffer, [0xff, 0x42, 0xcd]);
}

#[test]
fn powerpc_controller_bring_up() {
    use_powerpc();
}

fn use_powerpc() {
    assert_eq!(sahne_karnal::usb_io::powerpc::reset_writes(), [(0xf000_0008, 1), (0xf000_0008, 0)]);
    assert_eq!(sahne_karnal::usb_io::powerpc::enable_value(0x40), 0x41);
    assert_eq!(sahne_karnal::usb_io::powerpc::enable_value(0x41), 0x41);
    assert!(sahne_karnal::usb_io::powerpc::device_connected(0x3));
    assert!(!sahne_karnal::usb_io::powerpc::device_connected(0x2));
}
