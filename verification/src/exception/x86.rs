//! x86 exceptions.
use vstd::prelude::*;

verus! {

#[derive(Debug, Clone, Copy, PartialEq, Eq)]
pub enum ExceptionCause {
    DivideError,
    DebugException,
    Breakpoint,
    InvalidOpcode,
    PageFault,
    GeneralProtectionFault,
    DoubleFault,
    StackSegmentFault,
    Unknown,
}

#[derive(Debug, Clone, Copy, PartialEq, Eq)]
pub struct ExceptionContext {
    pub rip: u64,
    pub rsp: u64,
    pub rflags: u64,
    pub error_code: u64,
    pub rax: u64,
    pub rbx: u64,
    pub rcx: u64,
    pub rdx: u64,
    pub rsi: u64,
    pub rdi: u64,
    pub rbp: u64,
    pub r8: u64,
    pub r9: u64,
    pub r10: u64,
    pub r11: u64,
    pub r12: u64,
    pub r13: u64,
    pub r14: u64,
    pub r15: u64,
    pub cs: u64,
    pub ds: u64,
    pub es: u64,
    pub fs: u64,
    pub gs: u64,
    pub ss: u64,
}

/// The cause code of each cause; `Unknown` is `0xFFFF`.
pub open spec fn code_of(c: ExceptionCause) -> u32 {
    match c {
        ExceptionCause::DivideError => 0,
        ExceptionCause::DebugException => 1,
        ExceptionCause::Breakpoint => 3,
        ExceptionCause::InvalidOpcode => 6,
        ExceptionCause::PageFault => 14,
        ExceptionCause::GeneralProtectionFault => 13,
        ExceptionCause::DoubleFault => 8,
        ExceptionCause::StackSegmentFault => 12,
        ExceptionCause::Unknown => 0xFFFF,
    }
}

/// Whether a code is the code of one of the known causes.
pub open spec fn known_code(code: u32) -> bool {
    code == 0 || code == 1 || code == 3 || code == 6 || code == 14 || code == 13 || code == 8 || code == 12
}

/// What each cause is called.
pub open spec fn description_of(c: ExceptionCause) -> &'static str {
    match c {
        ExceptionCause::DivideError => "Bölme hatası",
        ExceptionCause::DebugException => "Hata ayıklama istisnası",
        ExceptionCause::Breakpoint => "Kesme noktası",
        ExceptionCause::InvalidOpcode => "Geçersiz işlem kodu",
        ExceptionCause::PageFault => "Sayfa hatası",
        ExceptionCause::GeneralProtectionFault => "Genel koruma hatası",
        ExceptionCause::DoubleFault => "Çift hata",
        ExceptionCause::StackSegmentFault => "Yığın segmenti hatası",
        ExceptionCause::Unknown => "Bilinmeyen sebep",
    }
}

impl ExceptionCause {
    pub fn code(&self) -> (r: u32)
        ensures
            r == code_of(*self),
    {
        match self {
            ExceptionCause::DivideError => 0,
            ExceptionCause::DebugException => 1,
            ExceptionCause::Breakpoint => 3,
            ExceptionCause::InvalidOpcode => 6,
            ExceptionCause::PageFault => 14,
            ExceptionCause::GeneralProtectionFault => 13,
            ExceptionCause::DoubleFault => 8,
            ExceptionCause::StackSegmentFault => 12,
            ExceptionCause::Unknown => 0xFFFF,
        }
    }

    /// The cause a trap's code names: each code of a known cause is that
    /// cause, every other code is `Unknown`.
    pub fn from_code(code: u32) -> (r: ExceptionCause)
        ensures
            known_code(code) ==> code_of(r) == code,
            !known_code(code) ==> r == ExceptionCause::Unknown,
    {
        if code == 0 {
            ExceptionCause::DivideError
        } else if code == 1 {
            ExceptionCause::DebugException
        } else if code == 3 {
            ExceptionCause::Breakpoint
        } else if code == 6 {
            ExceptionCause::InvalidOpcode
        } else if code == 14 {
            ExceptionCause::PageFault
        } else if code == 13 {
            ExceptionCause::GeneralProtectionFault
        } else if code == 8 {
            ExceptionCause::DoubleFault
        } else if code == 12 {
            ExceptionCause::StackSegmentFault
        } else {
            ExceptionCause::Unknown
        }
    }

    pub fn description(&self) -> (r: &'static str)
        ensures
            r == description_of(*self),
    {
        match self {
            ExceptionCause::DivideError => "Bölme hatası",
            ExceptionCause::DebugException => "Hata ayıklama istisnası",
            ExceptionCause::Breakpoint => "Kesme noktası",
            ExceptionCause::InvalidOpcode => "Geçersiz işlem kodu",
            ExceptionCause::PageFault => "Sayfa hatası",
            ExceptionCause::GeneralProtectionFault => "Genel koruma hatası",
            ExceptionCause::DoubleFault => "Çift hata",
            ExceptionCause::StackSegmentFault => "Yığın segmenti hatası",
            ExceptionCause::Unknown => "Bilinmeyen sebep",
        }
    }
}

/// The cause of the exception a context was saved for: the saved state
/// does not tell the causes apart, so it is `Unknown`.
pub fn exception_cause(context: &ExceptionContext) -> (r: ExceptionCause)
    ensures
        r == ExceptionCause::Unknown,
{
    ExceptionCause::Unknown
}

/// Decoding a cause's code gives the cause back, for every cause but
/// `Unknown`: the known causes have distinct, known codes.
pub proof fn law_cause_round_trip(c: ExceptionCause)
    requires
        c != ExceptionCause::Unknown,
    ensures
        known_code(code_of(c)),
        forall|r: ExceptionCause| code_of(r) == code_of(c) ==> r == c,
{
}

/// Code segment selector of the kernel.
pub const KERNEL_CODE_SELECTOR: u16 = 0x08;
/// Present, ring 0, 64-bit interrupt gate.
pub const INTERRUPT_GATE: u8 = 0x8E;
/// Entries of the interrupt descriptor table.
pub const IDT_ENTRIES: usize = 256;
/// Bytes of one entry.
pub const IDT_ENTRY_SIZE: usize = 16;

/// An interrupt descriptor table entry.
#[derive(Debug, Clone, Copy, PartialEq, Eq)]
pub struct IDTEntry {
    pub offset_low: u16,
    pub selector: u16,
    pub ist: u8,
    pub type_attributes: u8,
    pub offset_middle: u16,
    pub offset_high: u32,
    pub reserved: u32,
}

/// The value the limit field of the table pointer holds.
#[derive(Debug, Clone, Copy, PartialEq, Eq)]
pub struct IDTPointer {
    pub limit: u16,
    pub base: u64,
}

/// The handler address an entry points at, from its three offset fields.
pub open spec fn entry_offset(e: IDTEntry) -> int {
    e.offset_low + e.offset_middle * 0x1_0000 + e.offset_high * 0x1_0000_0000
}

/// The entry of an interrupt gate to `handler_addr` in the kernel's code
/// segment, its address split into low, middle and high parts.
pub fn create_idt_entry(handler_addr: u64) -> (r: IDTEntry)
    ensures
        r.offset_low == handler_addr % 0x1_0000,
        r.offset_middle == (handler_addr / 0x1_0000) % 0x1_0000,
        r.offset_high == handler_addr / 0x1_0000_0000,
        r.selector == KERNEL_CODE_SELECTOR,
        r.ist == 0,
        r.type_attributes == INTERRUPT_GATE,
        r.reserved == 0,
{
    let low = (handler_addr & 0xFFFF) as u16;
    let middle = ((handler_addr >> 16) & 0xFFFF) as u16;
    let high = (handler_addr >> 32) as u32;
    assert(handler_addr & 0xFFFF == handler_addr % 0x1_0000
        && (handler_addr >> 16) & 0xFFFF == (handler_addr / 0x1_0000) % 0x1_0000
        && handler_addr >> 32 == handler_addr / 0x1_0000_0000) by (bit_vector);
    IDTEntry {
        offset_low: low,
        selector: KERNEL_CODE_SELECTOR,
        ist: 0,
        type_attributes: INTERRUPT_GATE,
        offset_middle: middle,
        offset_high: high,
        reserved: 0,
    }
}

/// An entry points back at the handler it was made for.
pub proof fn law_idt_entry_points_at_handler(handler_addr: u64)
    ensures
        ({
            let e = IDTEntry {
                offset_low: (handler_addr % 0x1_0000) as u16,
                selector: KERNEL_CODE_SELECTOR,
                ist: 0,
                type_attributes: INTERRUPT_GATE,
                offset_middle: ((handler_addr / 0x1_0000) % 0x1_0000) as u16,
                offset_high: (handler_addr / 0x1_0000_0000) as u32,
                reserved: 0,
            };
            entry_offset(e) == handler_addr
        }),
{
    let h = handler_addr as int;
    assert(h == h % 0x1_0000 + ((h / 0x1_0000) % 0x1_0000) * 0x1_0000 + (h / 0x1_0000_0000) * 0x1_0000_0000)
        by (nonlinear_arith)
        requires
            0 <= h,
    {
        vstd::arithmetic::div_mod::lemma_fundamental_div_mod(h, 0x1_0000);
        vstd::arithmetic::div_mod::lemma_fundamental_div_mod(h / 0x1_0000, 0x1_0000);
        vstd::arithmetic::div_mod::lemma_div_denominator(h, 0x1_0000, 0x1_0000);
    }
}

/// The vectors that get the exception handler: divide error, breakpoint,
/// invalid opcode, double fault, general protection and page fault.
pub open spec fn handled_vectors() -> Seq<usize> {
    seq![0usize, 3, 6, 8, 13, 14]
}

/// The table with the handler at `handler_addr` installed on the handled
/// vectors, every other entry as it was.
pub fn install_handlers(idt: &mut Vec<IDTEntry>, handler_addr: u64)
    requires
        old(idt)@.len() == IDT_ENTRIES,
    ensures
        final(idt)@.len() == IDT_ENTRIES,
        forall|v: int| 0 <= v < IDT_ENTRIES ==> final(idt)@[v] == (if handled_vectors().contains(v as usize) {
            create_idt_entry_spec(handler_addr)
        } else {
            old(idt)@[v]
        }),
{
    let e = create_idt_entry(handler_addr);
    assert(e == create_idt_entry_spec(handler_addr));
    let vectors: [usize; 6] = [0, 3, 6, 8, 13, 14];
    assert(vectors@ =~= handled_vectors());
    let ghost before = idt@;
    let mut k: usize = 0;
    while k < 6
        invariant
            k <= 6,
            vectors@ == handled_vectors(),
            e == create_idt_entry_spec(handler_addr),
            idt@.len() == IDT_ENTRIES,
            before.len() == IDT_ENTRIES,
            forall|v: int| 0 <= v < IDT_ENTRIES ==> idt@[v] == (if exists|j: int| 0 <= j < k && vectors@[j] == v as usize {
                e
            } else {
                before[v]
            }),
        decreases 6 - k,
    {
        let v = vectors[k];
        idt.set(v, e);
        proof {
            assert forall|w: int| 0 <= w < IDT_ENTRIES implies idt@[w] == (if exists|j: int| 0 <= j < k + 1 && vectors@[j] == w as usize {
                e
            } else {
                before[w]
            }) by {
                if w == v as int {
                    assert(vectors@[k as int] == w as usize);
                } else {
                    if exists|j: int| 0 <= j < k + 1 && vectors@[j] == w as usize {
                        let j = choose|j: int| 0 <= j < k + 1 && vectors@[j] == w as usize;
                        assert(j != k);
                    }
                }
            }
        }
        k = k + 1;
    }
    assert forall|w: int| 0 <= w < IDT_ENTRIES implies (#[trigger] handled_vectors().contains(w as usize)
        == exists|j: int| 0 <= j < 6 && vectors@[j] == w as usize) by {
        if handled_vectors().contains(w as usize) {
            let j = choose|j: int| 0 <= j < handled_vectors().len() && handled_vectors()[j] == w as usize;
            assert(vectors@[j] == w as usize);
        }
    }
}

/// The entry [`create_idt_entry`] makes.
pub open spec fn create_idt_entry_spec(handler_addr: u64) -> IDTEntry {
    IDTEntry {
        offset_low: (handler_addr % 0x1_0000) as u16,
        selector: KERNEL_CODE_SELECTOR,
        ist: 0,
        type_attributes: INTERRUPT_GATE,
        offset_middle: ((handler_addr / 0x1_0000) % 0x1_0000) as u16,
        offset_high: (handler_addr / 0x1_0000_0000) as u32,
        reserved: 0,
    }
}

/// The pointer to a table at `base`: its limit is its size less one.
pub fn idt_pointer(base: u64) -> (r: IDTPointer)
    ensures
        r.limit == IDT_ENTRIES * IDT_ENTRY_SIZE - 1,
        r.base == base,
{
    IDTPointer { limit: (IDT_ENTRIES * IDT_ENTRY_SIZE - 1) as u16, base }
}

} // verus!
