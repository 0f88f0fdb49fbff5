//! Elbrus exceptions: the class a saved status names, and how a system
//! call's arguments are taken from the trap frame and its result put back.
use vstd::prelude::*;

verus! {

pub const EXCEPTION_CLASS_SYSCALL: u64 = 0x09;
pub const EXCEPTION_CLASS_DATA_ABORT: u64 = 0x05;
pub const EXCEPTION_CLASS_INSTRUCTION_ABORT: u64 = 0x06;

#[derive(Debug, Default, Copy, Clone, PartialEq, Eq)]
pub struct TrapFrame {
    pub gpr: [u64; 32],
    pub sp: u64,
    pub fp: u64,
    pub elr: u64,
    pub spsr: u64,
    pub syscall_num: u64,
    pub arg1: u64,
    pub arg2: u64,
    pub arg3: u64,
    pub arg4: u64,
    pub arg5: u64,
}

/// How an exception is handled.
#[derive(Debug, Copy, Clone, PartialEq, Eq)]
pub enum ExceptionAction {
    Syscall,
    PageFault,
    Other(u64),
}

/// The exception class: bits 31:26 of the saved status.
pub open spec fn exception_class(spsr: u64) -> u64 {
    (spsr / 0x400_0000) % 64
}

pub open spec fn action_of(class: u64) -> ExceptionAction {
    if class == EXCEPTION_CLASS_SYSCALL {
        ExceptionAction::Syscall
    } else if class == EXCEPTION_CLASS_DATA_ABORT || class == EXCEPTION_CLASS_INSTRUCTION_ABORT {
        ExceptionAction::PageFault
    } else {
        ExceptionAction::Other(class)
    }
}

/// How the exception a frame was saved for is handled: system calls,
/// data and instruction aborts (both page faults), and the rest.
pub fn handle_exception(trap_frame: &TrapFrame) -> (r: ExceptionAction)
    ensures
        r == action_of(exception_class(trap_frame.spsr)),
{
    let spsr = trap_frame.spsr;
    let class: u64 = (spsr >> 26) & 0x3F;
    assert((spsr >> 26) & 0x3F == (spsr / 0x400_0000) % 64) by (bit_vector);
    if class == EXCEPTION_CLASS_SYSCALL {
        ExceptionAction::Syscall
    } else if class == EXCEPTION_CLASS_DATA_ABORT || class == EXCEPTION_CLASS_INSTRUCTION_ABORT {
        ExceptionAction::PageFault
    } else {
        ExceptionAction::Other(class)
    }
}

/// A system call request: its number and five arguments.
#[derive(Debug, Copy, Clone, PartialEq, Eq)]
pub struct SyscallRequest {
    pub number: u64,
    pub args: [u64; 5],
}

/// The request a frame carries, from its system call fields.
pub fn syscall_request(trap_frame: &TrapFrame) -> (r: SyscallRequest)
    ensures
        r.number == trap_frame.syscall_num,
        r.args@ == seq![trap_frame.arg1, trap_frame.arg2, trap_frame.arg3, trap_frame.arg4, trap_frame.arg5],
{
    let r = SyscallRequest {
        number: trap_frame.syscall_num,
        args: [trap_frame.arg1, trap_frame.arg2, trap_frame.arg3, trap_frame.arg4, trap_frame.arg5],
    };
    assert(r.args@ =~= seq![trap_frame.arg1, trap_frame.arg2, trap_frame.arg3, trap_frame.arg4, trap_frame.arg5]);
    r
}

/// Hands a system call's result back: it goes to the first register, as
/// its two's-complement bits; nothing else changes.
pub fn complete_syscall(trap_frame: &mut TrapFrame, result: i64)
    ensures
        final(trap_frame).gpr@ == old(trap_frame).gpr@.update(0, result as u64),
        *final(trap_frame) == (TrapFrame { gpr: final(trap_frame).gpr, ..*old(trap_frame) }),
{
    trap_frame.gpr[0] = result as u64;
}

} // verus!
