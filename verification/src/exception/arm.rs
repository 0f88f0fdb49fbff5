//! ARM exceptions.
use vstd::prelude::*;

verus! {

#[derive(Debug, Clone, Copy, PartialEq, Eq)]
pub enum ExceptionCause {
    Reset,
    UndefinedInstruction,
    SoftwareInterrupt,
    PrefetchAbort,
    DataAbort,
    AddressException,
    IRQ,
    FIQ,
    Unknown,
}

#[derive(Debug, Clone, Copy, PartialEq, Eq)]
pub struct ExceptionContext {
    pub pc: u32,
    pub sp: u32,
    pub cpsr: u32,
    pub lr: u32,
    pub cause: u32,
}

/// The cause code of each cause; `Unknown` is `0xFFFF`.
pub open spec fn code_of(c: ExceptionCause) -> u32 {
    match c {
        ExceptionCause::Reset => 0,
        ExceptionCause::UndefinedInstruction => 1,
        ExceptionCause::SoftwareInterrupt => 2,
        ExceptionCause::PrefetchAbort => 3,
        ExceptionCause::DataAbort => 4,
        ExceptionCause::AddressException => 5,
        ExceptionCause::IRQ => 6,
        ExceptionCause::FIQ => 7,
        ExceptionCause::Unknown => 0xFFFF,
    }
}

/// Whether a code is the code of one of the known causes.
pub open spec fn known_code(code: u32) -> bool {
    code == 0 || code == 1 || code == 2 || code == 3 || code == 4 || code == 5 || code == 6 || code == 7
}

/// What each cause is called.
pub open spec fn description_of(c: ExceptionCause) -> &'static str {
    match c {
        ExceptionCause::Reset => "Sıfırlama",
        ExceptionCause::UndefinedInstruction => "Tanımsız talimat",
        ExceptionCause::SoftwareInterrupt => "Yazılım kesmesi (SWI)",
        ExceptionCause::PrefetchAbort => "Önceden getirme iptali",
        ExceptionCause::DataAbort => "Veri iptali",
        ExceptionCause::AddressException => "Adres istisnası",
        ExceptionCause::IRQ => "IRQ kesmesi",
        ExceptionCause::FIQ => "FIQ kesmesi",
        ExceptionCause::Unknown => "Bilinmeyen sebep",
    }
}

impl ExceptionCause {
    pub fn code(&self) -> (r: u32)
        ensures
            r == code_of(*self),
    {
        match self {
            ExceptionCause::Reset => 0,
            ExceptionCause::UndefinedInstruction => 1,
            ExceptionCause::SoftwareInterrupt => 2,
            ExceptionCause::PrefetchAbort => 3,
            ExceptionCause::DataAbort => 4,
            ExceptionCause::AddressException => 5,
            ExceptionCause::IRQ => 6,
            ExceptionCause::FIQ => 7,
            ExceptionCause::Unknown => 0xFFFF,
        }
    }

    /// The cause a trap's code names: codes 0 to 7 are the causes with those
    /// codes, every other code is `Unknown`.
    pub fn from_code(code: u32) -> (r: ExceptionCause)
        ensures
            known_code(code) ==> code_of(r) == code,
            !known_code(code) ==> r == ExceptionCause::Unknown,
    {
        if code == 0 {
            ExceptionCause::Reset
        } else if code == 1 {
            ExceptionCause::UndefinedInstruction
        } else if code == 2 {
            ExceptionCause::SoftwareInterrupt
        } else if code == 3 {
            ExceptionCause::PrefetchAbort
        } else if code == 4 {
            ExceptionCause::DataAbort
        } else if code == 5 {
            ExceptionCause::AddressException
        } else if code == 6 {
            ExceptionCause::IRQ
        } else if code == 7 {
            ExceptionCause::FIQ
        } else {
            ExceptionCause::Unknown
        }
    }

    pub fn description(&self) -> (r: &'static str)
        ensures
            r == description_of(*self),
    {
        match self {
            ExceptionCause::Reset => "Sıfırlama",
            ExceptionCause::UndefinedInstruction => "Tanımsız talimat",
            ExceptionCause::SoftwareInterrupt => "Yazılım kesmesi (SWI)",
            ExceptionCause::PrefetchAbort => "Önceden getirme iptali",
            ExceptionCause::DataAbort => "Veri iptali",
            ExceptionCause::AddressException => "Adres istisnası",
            ExceptionCause::IRQ => "IRQ kesmesi",
            ExceptionCause::FIQ => "FIQ kesmesi",
            ExceptionCause::Unknown => "Bilinmeyen sebep",
        }
    }
}

/// The cause of the exception a context was saved for.
pub fn exception_cause(context: &ExceptionContext) -> (r: ExceptionCause)
    ensures
        known_code(context.cause) ==> code_of(r) == context.cause,
        !known_code(context.cause) ==> r == ExceptionCause::Unknown,
{
    ExceptionCause::from_code(context.cause)
}

/// Decoding a cause's code gives the cause back, for every cause but
/// `Unknown`: the known causes have distinct, known codes.
pub proof fn law_cause_round_trip(c: ExceptionCause)
    requires
        c != ExceptionCause::Unknown,
    ensures
        known_code(code_of(c)),
        forall|r: ExceptionCause| code_of(r) == code_of(c) ==> r == c,
{
}


} // verus!
