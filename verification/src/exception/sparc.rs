//! SPARC exceptions.
use vstd::prelude::*;

verus! {

#[derive(Debug, Clone, Copy, PartialEq, Eq)]
pub enum ExceptionCause {
    InstructionAccessException,
    DataAccessException,
    IllegalInstruction,
    PrivilegedInstruction,
    DivisionByZero,
    TrapInstruction,
    FloatingPointException,
    Reset,
    Unknown,
}

#[derive(Debug, Clone, Copy, PartialEq, Eq)]
pub struct ExceptionContext {
    pub pc: u32,
    pub psr: u32,
    pub y: u32,
    pub wim: u32,
    pub tbr: u32,
    pub cause: u32,
}

/// The cause code of each cause; `Unknown` is `0xFFFF`.
pub open spec fn code_of(c: ExceptionCause) -> u32 {
    match c {
        ExceptionCause::InstructionAccessException => 0x01,
        ExceptionCause::DataAccessException => 0x02,
        ExceptionCause::IllegalInstruction => 0x0A,
        ExceptionCause::PrivilegedInstruction => 0x0B,
        ExceptionCause::DivisionByZero => 0x24,
        ExceptionCause::TrapInstruction => 0x28,
        ExceptionCause::FloatingPointException => 0x30,
        ExceptionCause::Reset => 0x80,
        ExceptionCause::Unknown => 0xFFFF,
    }
}

/// Whether a code is the code of one of the known causes.
pub open spec fn known_code(code: u32) -> bool {
    code == 0x01 || code == 0x02 || code == 0x0A || code == 0x0B || code == 0x24 || code == 0x28 || code == 0x30 || code == 0x80
}

/// What each cause is called.
pub open spec fn description_of(c: ExceptionCause) -> &'static str {
    match c {
        ExceptionCause::InstructionAccessException => "Talimat erişim istisnası",
        ExceptionCause::DataAccessException => "Veri erişim istisnası",
        ExceptionCause::IllegalInstruction => "Geçersiz komut",
        ExceptionCause::PrivilegedInstruction => "İmtiyazlı talimat",
        ExceptionCause::DivisionByZero => "Sıfıra bölme hatası",
        ExceptionCause::TrapInstruction => "TA (Trap Always) talimatı",
        ExceptionCause::FloatingPointException => "Kayan nokta istisnası",
        ExceptionCause::Reset => "Sıfırlama",
        ExceptionCause::Unknown => "Bilinmeyen sebep",
    }
}

impl ExceptionCause {
    pub fn code(&self) -> (r: u32)
        ensures
            r == code_of(*self),
    {
        match self {
            ExceptionCause::InstructionAccessException => 0x01,
            ExceptionCause::DataAccessException => 0x02,
            ExceptionCause::IllegalInstruction => 0x0A,
            ExceptionCause::PrivilegedInstruction => 0x0B,
            ExceptionCause::DivisionByZero => 0x24,
            ExceptionCause::TrapInstruction => 0x28,
            ExceptionCause::FloatingPointException => 0x30,
            ExceptionCause::Reset => 0x80,
            ExceptionCause::Unknown => 0xFFFF,
        }
    }

    /// The cause a trap's code names: each code of a known cause is that
    /// cause, every other code is `Unknown`.
    pub fn from_code(code: u32) -> (r: ExceptionCause)
        ensures
            known_code(code) ==> code_of(r) == code,
            !known_code(code) ==> r == ExceptionCause::Unknown,
    {
        if code == 0x01 {
            ExceptionCause::InstructionAccessException
        } else if code == 0x02 {
            ExceptionCause::DataAccessException
        } else if code == 0x0A {
            ExceptionCause::IllegalInstruction
        } else if code == 0x0B {
            ExceptionCause::PrivilegedInstruction
        } else if code == 0x24 {
            ExceptionCause::DivisionByZero
        } else if code == 0x28 {
            ExceptionCause::TrapInstruction
        } else if code == 0x30 {
            ExceptionCause::FloatingPointException
        } else if code == 0x80 {
            ExceptionCause::Reset
        } else {
            ExceptionCause::Unknown
        }
    }

    pub fn description(&self) -> (r: &'static str)
        ensures
            r == description_of(*self),
    {
        match self {
            ExceptionCause::InstructionAccessException => "Talimat erişim istisnası",
            ExceptionCause::DataAccessException => "Veri erişim istisnası",
            ExceptionCause::IllegalInstruction => "Geçersiz komut",
            ExceptionCause::PrivilegedInstruction => "İmtiyazlı talimat",
            ExceptionCause::DivisionByZero => "Sıfıra bölme hatası",
            ExceptionCause::TrapInstruction => "TA (Trap Always) talimatı",
            ExceptionCause::FloatingPointException => "Kayan nokta istisnası",
            ExceptionCause::Reset => "Sıfırlama",
            ExceptionCause::Unknown => "Bilinmeyen sebep",
        }
    }
}

/// The cause of the exception a context was saved for.
pub fn exception_cause(context: &ExceptionContext) -> (r: ExceptionCause)
    ensures
        known_code(context.cause) ==> code_of(r) == context.cause,
        !known_code(context.cause) ==> r == ExceptionCause::Unknown,
{
    ExceptionCause::from_code(context.cause)
}

/// Decoding a cause's code gives the cause back, for every cause but
/// `Unknown`: the known causes have distinct, known codes.
pub proof fn law_cause_round_trip(c: ExceptionCause)
    requires
        c != ExceptionCause::Unknown,
    ensures
        known_code(code_of(c)),
        forall|r: ExceptionCause| code_of(r) == code_of(c) ==> r == c,
{
}


} // verus!
