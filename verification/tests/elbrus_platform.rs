use sahne_karnal::elbrus::dtb::{
    add_memory_region, extract_initial_info, find_device_by_compatible, get_property, init, memory_region, Dtb,
    MemoryRegion,
};
use sahne_karnal::elbrus::exception::{
    complete_syscall, handle_exception, syscall_request, ExceptionAction, TrapFrame,
};
use sahne_karnal::elbrus::interrupt::{
    handle_page_fault, handle_syscall_trap, handle_trap, syscall_arguments, TrapAction, TrapFrame as ITrapFrame,
    TRAP_CAUSE_PAGE_FAULT_STORE,
};
use sahne_karnal::elbrus::{
    register_elbrus_device, register_provider, ElbrusDevice, KError, KResourceStatus, KseekFrom,
    ResourceProvider, ELBRUS_CAPACITY, ELBRUS_IOC_FORMAT, ELBRUS_IOC_GET_SIZE, MODE_CREATE, MODE_READ,
    MODE_WRITE,
};

#[test]
fn elbrus_error_codes() {
    assert_eq!(KError::PermissionDenied.code(), -1);
    assert_eq!(KError::NotFound.code(), -2);
    assert_eq!(KError::BadHandle.code(), -9);
    assert_eq!(KError::NotSupported.code(), -38);
    assert_eq!(KError::InternalError.code(), -255);
}

#[test]
fn elbrus_device_starts_counting() {
    assert_eq!(ElbrusDevice::new(ELBRUS_CAPACITY as u64 + 1).err(), Some(KError::InvalidArgument));
    let d = ElbrusDevice::new(64).unwrap();
    let mut buf = [0xffu8; 20];
    assert_eq!(d.read(&mut buf, 0), Ok(20));
    let mut expected = [0u8; 20];
    for i in 0..16 {
        expected[i] = i as u8;
    }
    assert_eq!(buf, expected);
    let small = ElbrusDevice::new(4).unwrap();
    let mut b = [9u8; 4];
    assert_eq!(small.read(&mut b, 0), Ok(4));
    assert_eq!(b, [0, 1, 2, 3]);
}

#[test]
fn elbrus_read_returns_written() {
    let mut d = ElbrusDevice::new(1024).unwrap();
    assert_eq!(d.write(&[7, 8, 9], 100), Ok(3));
    let mut buf = [0u8; 3];
    assert_eq!(d.read(&mut buf, 100), Ok(3));
    assert_eq!(buf, [7, 8, 9]);
    let mut around = [1u8; 5];
    assert_eq!(d.read(&mut around, 99), Ok(5));
    assert_eq!(around, [0, 7, 8, 9, 0]);
}

#[test]
fn elbrus_past_the_end() {
    let mut d = ElbrusDevice::new(16).unwrap();
    let mut buf = [5u8; 4];
    assert_eq!(d.read(&mut buf, 16), Ok(0));
    assert_eq!(buf, [5u8; 4]);
    assert_eq!(d.write(&[1], 16), Err(KError::InvalidArgument));
    assert_eq!(d.read(&mut [], 3), Ok(0));
}

#[test]
fn elbrus_control_requests() {
    let mut d = ElbrusDevice::new(8).unwrap();
    assert_eq!(d.control(ELBRUS_IOC_GET_SIZE, 0), Ok(8));
    assert_eq!(d.control(ELBRUS_IOC_FORMAT, 0), Ok(0));
    let mut buf = [9u8; 8];
    assert_eq!(d.read(&mut buf, 0), Ok(8));
    assert_eq!(buf, [0u8; 8]);
    assert_eq!(d.control(99, 0), Err(KError::InvalidArgument));
}

#[test]
fn elbrus_seek_and_modes() {
    let d = ElbrusDevice::new(100).unwrap();
    assert_eq!(d.seek(KseekFrom::Start(40)), Ok(40));
    assert_eq!(d.seek(KseekFrom::Start(101)), Err(KError::InvalidArgument));
    assert_eq!(d.seek(KseekFrom::End(30)), Ok(70));
    assert_eq!(d.seek(KseekFrom::End(101)), Err(KError::InvalidArgument));
    assert_eq!(d.seek(KseekFrom::Current(5)), Ok(5));
    assert_eq!(d.seek(KseekFrom::Current(-1)), Err(KError::InvalidArgument));
    assert_eq!(d.get_status(), Ok(KResourceStatus::Ready));
    assert!(d.supports_mode(MODE_READ));
    assert!(d.supports_mode(MODE_READ | MODE_WRITE));
    assert!(!d.supports_mode(MODE_CREATE));
    assert!(d.supports_mode(0));
}

#[test]
fn elbrus_registration() {
    let d = ElbrusDevice::new(1).unwrap();
    assert_eq!(register_provider("karnal://device/elbrus0", d).unwrap().0, 123);
    assert_eq!(register_elbrus_device(), Ok(()));
}

#[test]
fn elbrus_device_tree() {
    assert!(Dtb::from_bytes(&[]).is_err());
    let dtb = Dtb::from_bytes(&[0xd0, 0x0d, 0xfe, 0xed]).unwrap();
    assert_eq!(dtb.root.name, "/");
    assert!(dtb.find_node("/").is_some());
    assert!(dtb.find_node("/memory").is_none());
    assert_eq!(get_property(&dtb, "/", "model"), Some(b"Elbrus-8S\0".to_vec()));
    assert_eq!(get_property(&dtb, "/", "compatible"), Some(b"elbrus,elbrus64\0".to_vec()));
    assert_eq!(get_property(&dtb, "/", "reg"), None);
    assert_eq!(get_property(&dtb, "/cpus", "model"), None);
    assert!(find_device_by_compatible(&dtb, "elbrus,elbrus64").is_some());
    assert!(find_device_by_compatible(&dtb, "elbrus").is_none());
    assert_eq!(extract_initial_info(&dtb), Err(KError::NotFound));
    assert_eq!(init(0x1000, 4, &[1, 2, 3, 4]), Err(KError::NotFound));
    assert_eq!(init(0, 4, &[1, 2, 3, 4]), Err(KError::InvalidArgument));
    assert_eq!(init(0x1000, 0, &[]), Err(KError::InvalidArgument));
}

#[test]
fn elbrus_memory_regions() {
    let reg = [0, 0, 0, 0, 0x80, 0, 0, 0, 0, 0, 0, 0, 0x40, 0, 0, 0];
    assert_eq!(memory_region(&reg), Some((0x8000_0000, 0x4000_0000)));
    assert_eq!(memory_region(&reg[..15]), None);
    let mut regions = Vec::new();
    assert_eq!(add_memory_region(&mut regions, 0x1000, 0), Err(KError::InvalidArgument));
    assert!(regions.is_empty());
    assert_eq!(add_memory_region(&mut regions, 0x1000, 0x2000), Ok(()));
    assert_eq!(regions, vec![MemoryRegion { base: 0x1000, size: 0x2000 }]);
}

#[test]
fn elbrus_exceptions() {
    let mut f = TrapFrame::default();
    f.spsr = 0x09 << 26;
    assert_eq!(handle_exception(&f), ExceptionAction::Syscall);
    f.spsr = (0x05 << 26) | 0xfff;
    assert_eq!(handle_exception(&f), ExceptionAction::PageFault);
    f.spsr = 0x06 << 26;
    assert_eq!(handle_exception(&f), ExceptionAction::PageFault);
    f.spsr = (0x3f << 26) | (1 << 32);
    assert_eq!(handle_exception(&f), ExceptionAction::Other(0x3f));
    f.syscall_num = 4;
    f.arg1 = 1;
    f.arg5 = 5;
    let req = syscall_request(&f);
    assert_eq!(req.number, 4);
    assert_eq!(req.args, [1, 0, 0, 0, 5]);
    complete_syscall(&mut f, -2);
    assert_eq!(f.gpr[0], (-2i64) as u64);
    assert_eq!(f.syscall_num, 4);
}

#[test]
fn elbrus_traps() {
    let mut f = ITrapFrame::default();
    f.trap_cause = 1;
    assert_eq!(handle_trap(&f), TrapAction::Syscall);
    f.trap_cause = 2;
    assert_eq!(handle_trap(&f), TrapAction::Panic("Page Fault Not Implemented!"));
    f.trap_cause = 5;
    assert_eq!(handle_trap(&f), TrapAction::Panic("Timer Interrupt Not Implemented!"));
    f.trap_cause = 4;
    assert_eq!(handle_trap(&f), TrapAction::Panic("Illegal Instruction Not Implemented!"));
    f.trap_cause = 77;
    assert_eq!(handle_trap(&f), TrapAction::Panic("Unknown or Unhandled Trap Cause!"));
    f.regs[0] = 10;
    f.regs[4] = 14;
    f.regs[5] = 15;
    f.syscall_nr = 3;
    assert_eq!(syscall_arguments(&f), (3, [10, 0, 0, 0, 14]));
    handle_syscall_trap(&mut f, 42);
    assert_eq!(f.regs[0], 42);
    f.trap_cause = TRAP_CAUSE_PAGE_FAULT_STORE;
    f.trap_value = 0xdead;
    assert_eq!(handle_page_fault(&f), (0xdead, true));
}
