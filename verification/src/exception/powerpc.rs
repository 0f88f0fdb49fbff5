//! PowerPC exceptions.
use vstd::prelude::*;

verus! {

#[derive(Debug, Clone, Copy, PartialEq, Eq)]
pub enum ExceptionCause {
    Alignment,
    Program,
    SystemCall,
    InstructionStorage,
    DataStorage,
    Interrupt,
    Unknown,
}

#[derive(Debug, Clone, Copy, PartialEq, Eq)]
pub struct ExceptionContext {
    pub msr: u32,
    pub pc: u32,
    pub lr: u32,
    pub ctr: u32,
    pub gpr: [u32; 32],
    pub cause: u32,
}

/// The cause code of each cause; `Unknown` is `0xFFFF`.
pub open spec fn code_of(c: ExceptionCause) -> u32 {
    match c {
        ExceptionCause::Alignment => 0x0001,
        ExceptionCause::Program => 0x0004,
        ExceptionCause::SystemCall => 0x000C,
        ExceptionCause::InstructionStorage => 0x0010,
        ExceptionCause::DataStorage => 0x0014,
        ExceptionCause::Interrupt => 0x0200,
        ExceptionCause::Unknown => 0xFFFF,
    }
}

/// Whether a code is the code of one of the known causes.
pub open spec fn known_code(code: u32) -> bool {
    code == 0x0001 || code == 0x0004 || code == 0x000C || code == 0x0010 || code == 0x0014 || code == 0x0200
}

/// What each cause is called.
pub open spec fn description_of(c: ExceptionCause) -> &'static str {
    match c {
        ExceptionCause::Alignment => "Hizalama Hatası",
        ExceptionCause::Program => "Program İstisnası",
        ExceptionCause::SystemCall => "Sistem Çağrısı",
        ExceptionCause::InstructionStorage => "Talimat Depolama İstisnası",
        ExceptionCause::DataStorage => "Veri Depolama İstisnası",
        ExceptionCause::Interrupt => "Kesme",
        ExceptionCause::Unknown => "Bilinmeyen Sebep",
    }
}

impl ExceptionCause {
    pub fn code(&self) -> (r: u32)
        ensures
            r == code_of(*self),
    {
        match self {
            ExceptionCause::Alignment => 0x0001,
            ExceptionCause::Program => 0x0004,
            ExceptionCause::SystemCall => 0x000C,
            ExceptionCause::InstructionStorage => 0x0010,
            ExceptionCause::DataStorage => 0x0014,
            ExceptionCause::Interrupt => 0x0200,
            ExceptionCause::Unknown => 0xFFFF,
        }
    }

    /// The cause a trap's code names: each code of a known cause is that
    /// cause, every other code is `Unknown`.
    pub fn from_code(code: u32) -> (r: ExceptionCause)
        ensures
            known_code(code) ==> code_of(r) == code,
            !known_code(code) ==> r == ExceptionCause::Unknown,
    {
        if code == 0x0001 {
            ExceptionCause::Alignment
        } else if code == 0x0004 {
            ExceptionCause::Program
        } else if code == 0x000C {
            ExceptionCause::SystemCall
        } else if code == 0x0010 {
            ExceptionCause::InstructionStorage
        } else if code == 0x0014 {
            ExceptionCause::DataStorage
        } else if code == 0x0200 {
            ExceptionCause::Interrupt
        } else {
            ExceptionCause::Unknown
        }
    }

    pub fn description(&self) -> (r: &'static str)
        ensures
            r == description_of(*self),
    {
        match self {
            ExceptionCause::Alignment => "Hizalama Hatası",
            ExceptionCause::Program => "Program İstisnası",
            ExceptionCause::SystemCall => "Sistem Çağrısı",
            ExceptionCause::InstructionStorage => "Talimat Depolama İstisnası",
            ExceptionCause::DataStorage => "Veri Depolama İstisnası",
            ExceptionCause::Interrupt => "Kesme",
            ExceptionCause::Unknown => "Bilinmeyen Sebep",
        }
    }
}

/// The cause of the exception a context was saved for.
pub fn exception_cause(context: &ExceptionContext) -> (r: ExceptionCause)
    ensures
        known_code(context.cause) ==> code_of(r) == context.cause,
        !known_code(context.cause) ==> r == ExceptionCause::Unknown,
{
    ExceptionCause::from_code(context.cause)
}

/// Decoding a cause's code gives the cause back, for every cause but
/// `Unknown`: the known causes have distinct, known codes.
pub proof fn law_cause_round_trip(c: ExceptionCause)
    requires
        c != ExceptionCause::Unknown,
    ensures
        known_code(code_of(c)),
        forall|r: ExceptionCause| code_of(r) == code_of(c) ==> r == c,
{
}


} // verus!
