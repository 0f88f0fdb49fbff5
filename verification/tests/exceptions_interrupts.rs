use sahne_karnal::exception::{arm, loongarch, powerpc, sparc, x86};
use sahne_karnal::interrupt;
use sahne_karnal::interrupt::{
    arm_usb_interrupt, build_idt, gate, loongarch_usb_interrupt, pic_init_sequence, usb_irq_vector,
};

#[test]
fn console_line_bytes() {
    assert_eq!(sahne_karnal::exception::println("ab"), vec![b'a', b'b', b'\n']);
    assert_eq!(sahne_karnal::exception::println(""), vec![b'\n']);
    assert_eq!(sahne_karnal::exception::println("ç"), vec![0xc3, 0xa7, b'\n']);
}

#[test]
fn arm_exception_causes() {
    for code in 0..8u32 {
        assert_eq!(arm::ExceptionCause::from_code(code).code(), code);
    }
    assert_eq!(arm::ExceptionCause::from_code(8), arm::ExceptionCause::Unknown);
    assert_eq!(arm::ExceptionCause::from_code(2), arm::ExceptionCause::SoftwareInterrupt);
    assert_eq!(arm::ExceptionCause::Unknown.code(), 0xffff);
    assert_eq!(arm::ExceptionCause::SoftwareInterrupt.description(), "Yazılım kesmesi (SWI)");
    assert_eq!(arm::ExceptionCause::DataAbort.description(), "Veri iptali");
    let ctx = arm::ExceptionContext { pc: 0x8000, sp: 0, cpsr: 0, lr: 0, cause: 4 };
    assert_eq!(arm::exception_cause(&ctx), arm::ExceptionCause::DataAbort);
    let ctx = arm::ExceptionContext { cause: 0x1234, ..ctx };
    assert_eq!(arm::exception_cause(&ctx), arm::ExceptionCause::Unknown);
}

#[test]
fn loongarch_exception_causes() {
    let known = [0u32, 1, 2, 3, 4, 5, 6, 7, 8, 9, 10, 11, 12, 13, 14, 15, 23, 30];
    for code in known {
        assert_eq!(loongarch::ExceptionCause::from_code(code).code(), code);
    }
    for code in [16u32, 22, 24, 29, 31, 0xffff] {
        assert_eq!(loongarch::ExceptionCause::from_code(code), loongarch::ExceptionCause::Unknown);
    }
    assert_eq!(loongarch::ExceptionCause::Watchpoint.description(), "İzleme Noktası");
    assert_eq!(loongarch::ExceptionCause::Syscall.description(), "Sistem Çağrısı");
    let ctx = loongarch::ExceptionContext { pc: 0, badvaddr: 0, status: 0, cause: 30 };
    assert_eq!(loongarch::exception_cause(&ctx), loongarch::ExceptionCause::MachineCheck);
}

#[test]
fn powerpc_exception_causes() {
    for code in [0x0001u32, 0x0004, 0x000c, 0x0010, 0x0014, 0x0200] {
        assert_eq!(powerpc::ExceptionCause::from_code(code).code(), code);
    }
    assert_eq!(powerpc::ExceptionCause::from_code(0x0300), powerpc::ExceptionCause::Unknown);
    assert_eq!(powerpc::ExceptionCause::from_code(0x000c), powerpc::ExceptionCause::SystemCall);
    assert_eq!(powerpc::ExceptionCause::Alignment.description(), "Hizalama Hatası");
}

#[test]
fn sparc_exception_causes() {
    for code in [0x01u32, 0x02, 0x0a, 0x0b, 0x24, 0x28, 0x30, 0x80] {
        assert_eq!(sparc::ExceptionCause::from_code(code).code(), code);
    }
    assert_eq!(sparc::ExceptionCause::from_code(0), sparc::ExceptionCause::Unknown);
    assert_eq!(sparc::ExceptionCause::DivisionByZero.description(), "Sıfıra bölme hatası");
    let ctx = sparc::ExceptionContext { pc: 0, psr: 0, y: 0, wim: 0, tbr: 0, cause: 0x24 };
    assert_eq!(sparc::exception_cause(&ctx), sparc::ExceptionCause::DivisionByZero);
}

#[test]
fn x86_exception_causes() {
    for code in [0u32, 1, 3, 6, 8, 12, 13, 14] {
        assert_eq!(x86::ExceptionCause::from_code(code).code(), code);
    }
    assert_eq!(x86::ExceptionCause::from_code(2), x86::ExceptionCause::Unknown);
    assert_eq!(x86::ExceptionCause::PageFault.description(), "Sayfa hatası");
    assert_eq!(x86::ExceptionCause::Unknown.description(), "Bilinmeyen sebep");
}

#[test]
fn x86_idt_entries() {
    let e = x86::create_idt_entry(0x1234_5678_9abc_def0);
    assert_eq!(e.offset_low, 0xdef0);
    assert_eq!(e.offset_middle, 0x9abc);
    assert_eq!(e.offset_high, 0x1234_5678);
    assert_eq!(e.selector, 0x08);
    assert_eq!(e.type_attributes, 0x8e);
    assert_eq!((e.ist, e.reserved), (0, 0));
    let back = e.offset_low as u64 | (e.offset_middle as u64) << 16 | (e.offset_high as u64) << 32;
    assert_eq!(back, 0x1234_5678_9abc_def0);
    let blank = x86::create_idt_entry(0);
    let mut idt = vec![blank; 256];
    x86::install_handlers(&mut idt, 0xffff_8000_0010_2030);
    let h = x86::create_idt_entry(0xffff_8000_0010_2030);
    for v in 0..256 {
        let expected = if [0, 3, 6, 8, 13, 14].contains(&v) { h } else { blank };
        assert_eq!(idt[v], expected);
    }
    let p = x86::idt_pointer(0x5000);
    assert_eq!(p.limit, 4095);
    assert_eq!(p.base, 0x5000);
}

#[test]
fn x86_pic_interrupt_table() {
    assert_eq!(usb_irq_vector(), 43);
    let g = gate(0x0012_3456);
    assert_eq!((g.offset_low, g.offset_high, g.selector, g.zero, g.type_attributes), (0x3456, 0x0012, 8, 0, 0x8e));
    let idt = build_idt(0x1000, 0x2000);
    assert_eq!(idt.len(), 256);
    for (v, e) in idt.iter().enumerate() {
        if v == 43 {
            assert_eq!(*e, gate(0x2000));
        } else {
            assert_eq!(*e, gate(0x1000));
        }
    }
    let seq = pic_init_sequence();
    assert_eq!(seq[0], (0x20, 0x11));
    assert_eq!(seq[2], (0x21, 32));
    assert_eq!(seq[3], (0xa1, 40));
    assert_eq!(seq[9], (0xa1, 0xff));
}

#[test]
fn usb_interrupt_decisions() {
    let a = arm_usb_interrupt(0x3);
    assert!(a.receive && a.transmitted);
    assert_eq!(a.write_back, Some(3));
    let a = arm_usb_interrupt(0x0);
    assert!(!a.receive && !a.transmitted);
    assert_eq!(a.write_back, Some(0));
    let l = loongarch_usb_interrupt(0xf1);
    assert!(l.receive && !l.transmitted);
    assert_eq!(l.write_back, Some(0xf0));
    let l = loongarch_usb_interrupt(0xf0);
    assert_eq!(l.write_back, None);
    let l = loongarch_usb_interrupt(0x6);
    assert!(!l.receive && l.transmitted);
    assert_eq!(l.write_back, Some(0x4));
}

#[test]
fn arm_vector_table_routes_usb_slot() {
    let table = interrupt::arm_vector_table(0x100, 0x200);
    assert_eq!(table.len(), 256);
    assert_eq!(table[12], 0x200);
    assert_eq!(table[0], 0x100);
    assert_eq!(table[11], 0x100);
    assert_eq!(table[255], 0x100);
}

#[test]
fn powerpc_and_sparc_vector_tables() {
    let ppc = interrupt::powerpc_vector_table(0x10, 0x20);
    assert_eq!(ppc.len(), 256);
    assert_eq!(ppc[0], 0x10);
    assert_eq!(ppc[1], 0x20);
    assert!(ppc[2..].iter().all(|e| *e == 0));
    let sparc = interrupt::sparc_vector_table(0x5, 0x10, 0x20);
    assert_eq!(sparc.len(), 256);
    assert_eq!(sparc[0], 0x10);
    assert_eq!(sparc[1], 0x20);
    assert!(sparc[2..].iter().all(|e| *e == 0x5));
}

#[test]
fn status_register_enable_bits() {
    assert_eq!(interrupt::powerpc_enable_interrupts(0x1), 0x8001);
    assert_eq!(interrupt::powerpc_enable_interrupts(0x8000), 0x8000);
    assert_eq!(interrupt::sparc_enable_traps(0x80), 0x90);
    assert_eq!(interrupt::ARM_USB_INTERRUPT_ENABLE_VALUE, 1 << interrupt::ARM_USB_IRQ);
}

#[test]
fn gate_bytes_in_memory() {
    let g = gate(0x1234_5678);
    assert_eq!(interrupt::entry_bytes(g), [0x78, 0x56, 0x08, 0x00, 0x00, 0x8E, 0x34, 0x12]);
    assert_eq!(interrupt::IDT_LIMIT as usize + 1, 256 * interrupt::IDT_ENTRY_SIZE);
}
