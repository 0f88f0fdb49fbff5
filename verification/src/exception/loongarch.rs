//! LoongArch exceptions.
use vstd::prelude::*;

verus! {

#[derive(Debug, Clone, Copy, PartialEq, Eq)]
pub enum ExceptionCause {
    Interrupt,
    TLBModification,
    TLBLoadMiss,
    TLBStoreMiss,
    AddressErrorLoad,
    AddressErrorStore,
    BusErrorInstructionFetch,
    BusErrorDataLoadStore,
    Syscall,
    Breakpoint,
    ReservedInstruction,
    CoprocessorUnusable,
    Overflow,
    Trap,
    VirtualInstruction,
    FloatingPointException,
    Watchpoint,
    MachineCheck,
    Unknown,
}

#[derive(Debug, Clone, Copy, PartialEq, Eq)]
pub struct ExceptionContext {
    pub pc: u64,
    pub badvaddr: u64,
    pub status: u64,
    pub cause: u32,
}

/// The cause code of each cause; `Unknown` is `0xFFFF`.
pub open spec fn code_of(c: ExceptionCause) -> u32 {
    match c {
        ExceptionCause::Interrupt => 0,
        ExceptionCause::TLBModification => 1,
        ExceptionCause::TLBLoadMiss => 2,
        ExceptionCause::TLBStoreMiss => 3,
        ExceptionCause::AddressErrorLoad => 4,
        ExceptionCause::AddressErrorStore => 5,
        ExceptionCause::BusErrorInstructionFetch => 6,
        ExceptionCause::BusErrorDataLoadStore => 7,
        ExceptionCause::Syscall => 8,
        ExceptionCause::Breakpoint => 9,
        ExceptionCause::ReservedInstruction => 10,
        ExceptionCause::CoprocessorUnusable => 11,
        ExceptionCause::Overflow => 12,
        ExceptionCause::Trap => 13,
        ExceptionCause::VirtualInstruction => 14,
        ExceptionCause::FloatingPointException => 15,
        ExceptionCause::Watchpoint => 23,
        ExceptionCause::MachineCheck => 30,
        ExceptionCause::Unknown => 0xFFFF,
    }
}

/// Whether a code is the code of one of the known causes.
pub open spec fn known_code(code: u32) -> bool {
    code == 0 || code == 1 || code == 2 || code == 3 || code == 4 || code == 5 || code == 6 || code == 7 || code == 8 || code == 9 || code == 10 || code == 11 || code == 12 || code == 13 || code == 14 || code == 15 || code == 23 || code == 30
}

/// What each cause is called.
pub open spec fn description_of(c: ExceptionCause) -> &'static str {
    match c {
        ExceptionCause::Interrupt => "Kesme",
        ExceptionCause::TLBModification => "TLB Değişikliği",
        ExceptionCause::TLBLoadMiss => "TLB Yükleme Kaçırma",
        ExceptionCause::TLBStoreMiss => "TLB Saklama Kaçırma",
        ExceptionCause::AddressErrorLoad => "Adres Hatası (Yükleme)",
        ExceptionCause::AddressErrorStore => "Adres Hatası (Saklama)",
        ExceptionCause::BusErrorInstructionFetch => "Veriyolu Hatası (Talimat Getirme)",
        ExceptionCause::BusErrorDataLoadStore => "Veriyolu Hatası (Veri Yükleme/Saklama)",
        ExceptionCause::Syscall => "Sistem Çağrısı",
        ExceptionCause::Breakpoint => "Kesme Noktası",
        ExceptionCause::ReservedInstruction => "Ayrılmış Komut",
        ExceptionCause::CoprocessorUnusable => "Yardımcı İşlemci Kullanılamaz",
        ExceptionCause::Overflow => "Taşma",
        ExceptionCause::Trap => "Tuzak",
        ExceptionCause::VirtualInstruction => "Sanal Talimat",
        ExceptionCause::FloatingPointException => "Kayan Nokta İstisnası",
        ExceptionCause::Watchpoint => "İzleme Noktası",
        ExceptionCause::MachineCheck => "Makine Kontrolü",
        ExceptionCause::Unknown => "Bilinmeyen Sebep",
    }
}

impl ExceptionCause {
    pub fn code(&self) -> (r: u32)
        ensures
            r == code_of(*self),
    {
        match self {
            ExceptionCause::Interrupt => 0,
            ExceptionCause::TLBModification => 1,
            ExceptionCause::TLBLoadMiss => 2,
            ExceptionCause::TLBStoreMiss => 3,
            ExceptionCause::AddressErrorLoad => 4,
            ExceptionCause::AddressErrorStore => 5,
            ExceptionCause::BusErrorInstructionFetch => 6,
            ExceptionCause::BusErrorDataLoadStore => 7,
            ExceptionCause::Syscall => 8,
            ExceptionCause::Breakpoint => 9,
            ExceptionCause::ReservedInstruction => 10,
            ExceptionCause::CoprocessorUnusable => 11,
            ExceptionCause::Overflow => 12,
            ExceptionCause::Trap => 13,
            ExceptionCause::VirtualInstruction => 14,
            ExceptionCause::FloatingPointException => 15,
            ExceptionCause::Watchpoint => 23,
            ExceptionCause::MachineCheck => 30,
            ExceptionCause::Unknown => 0xFFFF,
        }
    }

    /// The cause a trap's code names: each code of a known cause is that
    /// cause, every other code is `Unknown`.
    pub fn from_code(code: u32) -> (r: ExceptionCause)
        ensures
            known_code(code) ==> code_of(r) == code,
            !known_code(code) ==> r == ExceptionCause::Unknown,
    {
        if code == 0 {
            ExceptionCause::Interrupt
        } else if code == 1 {
            ExceptionCause::TLBModification
        } else if code == 2 {
            ExceptionCause::TLBLoadMiss
        } else if code == 3 {
            ExceptionCause::TLBStoreMiss
        } else if code == 4 {
            ExceptionCause::AddressErrorLoad
        } else if code == 5 {
            ExceptionCause::AddressErrorStore
        } else if code == 6 {
            ExceptionCause::BusErrorInstructionFetch
        } else if code == 7 {
            ExceptionCause::BusErrorDataLoadStore
        } else if code == 8 {
            ExceptionCause::Syscall
        } else if code == 9 {
            ExceptionCause::Breakpoint
        } else if code == 10 {
            ExceptionCause::ReservedInstruction
        } else if code == 11 {
            ExceptionCause::CoprocessorUnusable
        } else if code == 12 {
            ExceptionCause::Overflow
        } else if code == 13 {
            ExceptionCause::Trap
        } else if code == 14 {
            ExceptionCause::VirtualInstruction
        } else if code == 15 {
            ExceptionCause::FloatingPointException
        } else if code == 23 {
            ExceptionCause::Watchpoint
        } else if code == 30 {
            ExceptionCause::MachineCheck
        } else {
            ExceptionCause::Unknown
        }
    }

    pub fn description(&self) -> (r: &'static str)
        ensures
            r == description_of(*self),
    {
        match self {
            ExceptionCause::Interrupt => "Kesme",
            ExceptionCause::TLBModification => "TLB Değişikliği",
            ExceptionCause::TLBLoadMiss => "TLB Yükleme Kaçırma",
            ExceptionCause::TLBStoreMiss => "TLB Saklama Kaçırma",
            ExceptionCause::AddressErrorLoad => "Adres Hatası (Yükleme)",
            ExceptionCause::AddressErrorStore => "Adres Hatası (Saklama)",
            ExceptionCause::BusErrorInstructionFetch => "Veriyolu Hatası (Talimat Getirme)",
            ExceptionCause::BusErrorDataLoadStore => "Veriyolu Hatası (Veri Yükleme/Saklama)",
            ExceptionCause::Syscall => "Sistem Çağrısı",
            ExceptionCause::Breakpoint => "Kesme Noktası",
            ExceptionCause::ReservedInstruction => "Ayrılmış Komut",
            ExceptionCause::CoprocessorUnusable => "Yardımcı İşlemci Kullanılamaz",
            ExceptionCause::Overflow => "Taşma",
            ExceptionCause::Trap => "Tuzak",
            ExceptionCause::VirtualInstruction => "Sanal Talimat",
            ExceptionCause::FloatingPointException => "Kayan Nokta İstisnası",
            ExceptionCause::Watchpoint => "İzleme Noktası",
            ExceptionCause::MachineCheck => "Makine Kontrolü",
            ExceptionCause::Unknown => "Bilinmeyen Sebep",
        }
    }
}

/// The cause of the exception a context was saved for.
pub fn exception_cause(context: &ExceptionContext) -> (r: ExceptionCause)
    ensures
        known_code(context.cause) ==> code_of(r) == context.cause,
        !known_code(context.cause) ==> r == ExceptionCause::Unknown,
{
    ExceptionCause::from_code(context.cause)
}

/// Decoding a cause's code gives the cause back, for every cause but
/// `Unknown`: the known causes have distinct, known codes.
pub proof fn law_cause_round_trip(c: ExceptionCause)
    requires
        c != ExceptionCause::Unknown,
    ensures
        known_code(code_of(c)),
        forall|r: ExceptionCause| code_of(r) == code_of(c) ==> r == c,
{
}


} // verus!
