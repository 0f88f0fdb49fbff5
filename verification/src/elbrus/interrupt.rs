//! Elbrus traps: the handling each trap cause gets, the system call a frame
//! carries in its registers, and where its result goes.
use vstd::prelude::*;

verus! {

pub const TRAP_CAUSE_SYSCALL: u64 = 1;
pub const TRAP_CAUSE_PAGE_FAULT_LOAD: u64 = 2;
pub const TRAP_CAUSE_PAGE_FAULT_STORE: u64 = 3;
pub const TRAP_CAUSE_ILLEGAL_INSTRUCTION: u64 = 4;
pub const TRAP_CAUSE_TIMER_INTERRUPT: u64 = 5;

pub const SYSCALL_ARG1_REG: usize = 0;
pub const SYSCALL_ARG2_REG: usize = 1;
pub const SYSCALL_ARG3_REG: usize = 2;
pub const SYSCALL_ARG4_REG: usize = 3;
pub const SYSCALL_ARG5_REG: usize = 4;
pub const SYSCALL_RETURN_REG: usize = 0;

#[derive(Debug, Default, Copy, Clone, PartialEq, Eq)]
pub struct TrapFrame {
    pub regs: [u64; 32],
    pub sp: u64,
    pub pc: u64,
    pub flags: u64,
    pub trap_cause: u64,
    pub trap_value: u64,
    pub syscall_nr: u64,
}

/// How a trap is handled: system calls are served; the other known causes
/// and unknown ones end in a kernel panic with a message.
#[derive(Debug, Copy, Clone, PartialEq, Eq)]
pub enum TrapAction {
    Syscall,
    Panic(&'static str),
}

pub open spec fn trap_action_of(cause: u64) -> TrapAction {
    if cause == TRAP_CAUSE_SYSCALL {
        TrapAction::Syscall
    } else if cause == TRAP_CAUSE_PAGE_FAULT_LOAD || cause == TRAP_CAUSE_PAGE_FAULT_STORE {
        TrapAction::Panic("Page Fault Not Implemented!")
    } else if cause == TRAP_CAUSE_TIMER_INTERRUPT {
        TrapAction::Panic("Timer Interrupt Not Implemented!")
    } else if cause == TRAP_CAUSE_ILLEGAL_INSTRUCTION {
        TrapAction::Panic("Illegal Instruction Not Implemented!")
    } else {
        TrapAction::Panic("Unknown or Unhandled Trap Cause!")
    }
}

pub fn handle_trap(frame: &TrapFrame) -> (r: TrapAction)
    ensures
        r == trap_action_of(frame.trap_cause),
{
    let cause = frame.trap_cause;
    if cause == TRAP_CAUSE_SYSCALL {
        TrapAction::Syscall
    } else if cause == TRAP_CAUSE_PAGE_FAULT_LOAD || cause == TRAP_CAUSE_PAGE_FAULT_STORE {
        TrapAction::Panic("Page Fault Not Implemented!")
    } else if cause == TRAP_CAUSE_TIMER_INTERRUPT {
        TrapAction::Panic("Timer Interrupt Not Implemented!")
    } else if cause == TRAP_CAUSE_ILLEGAL_INSTRUCTION {
        TrapAction::Panic("Illegal Instruction Not Implemented!")
    } else {
        TrapAction::Panic("Unknown or Unhandled Trap Cause!")
    }
}

/// The system call a frame carries: its number, and its arguments in the
/// first five registers.
pub fn syscall_arguments(frame: &TrapFrame) -> (r: (u64, [u64; 5]))
    ensures
        r.0 == frame.syscall_nr,
        r.1@ == frame.regs@.subrange(0, 5),
{
    let r = (frame.syscall_nr, [
        frame.regs[SYSCALL_ARG1_REG],
        frame.regs[SYSCALL_ARG2_REG],
        frame.regs[SYSCALL_ARG3_REG],
        frame.regs[SYSCALL_ARG4_REG],
        frame.regs[SYSCALL_ARG5_REG],
    ]);
    assert(r.1@ =~= frame.regs@.subrange(0, 5));
    r
}

/// Hands a system call's result back in the return register.
pub fn handle_syscall_trap(frame: &mut TrapFrame, result: i64)
    ensures
        final(frame).regs@ == old(frame).regs@.update(SYSCALL_RETURN_REG as int, result as u64),
        *final(frame) == (TrapFrame { regs: final(frame).regs, ..*old(frame) }),
{
    frame.regs[SYSCALL_RETURN_REG] = result as u64;
}

/// A page fault's address and whether it was a store.
pub fn handle_page_fault(frame: &TrapFrame) -> (r: (u64, bool))
    ensures
        r == (frame.trap_value, frame.trap_cause == TRAP_CAUSE_PAGE_FAULT_STORE),
{
    (frame.trap_value, frame.trap_cause == TRAP_CAUSE_PAGE_FAULT_STORE)
}

} // verus!
