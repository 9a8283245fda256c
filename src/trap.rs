//! The dispatch loop's decision for each trap taken from supervisor mode.
use vstd::prelude::*;
use crate::call::{stops, CallResult};
use crate::context::Context;
use crate::emulate::is_rdtime;
use crate::forward::{forwarded, ForwardError, ForwardedTrap};

verus! {

/// The interrupt flag of a cause register: its most significant bit.
pub const INTERRUPT_BIT: usize = !(usize::MAX >> 1);
/// Interrupt code of the machine timer interrupt.
pub const MACHINE_TIMER_CODE: usize = 7;
/// Interrupt code of the machine software interrupt.
pub const MACHINE_SOFT_CODE: usize = 3;
/// Exception code of an environment call from supervisor mode.
pub const SUPERVISOR_ENV_CALL_CODE: usize = 9;
/// Exception code of an illegal instruction.
pub const ILLEGAL_INSTRUCTION_CODE: usize = 2;

/// The cause of a trap, as the dispatch loop tells causes apart.
#[derive(Clone, Copy, Debug, PartialEq, Eq, Structural)]
pub enum TrapCause {
    MachineTimer,
    MachineSoft,
    SupervisorEnvCall,
    IllegalInstruction,
    /// Any other cause, with the cause register's value.
    Other(usize),
}

/// What the cause register value `mcause` reports.
pub open spec fn spec_trap_cause(mcause: usize) -> TrapCause {
    if mcause == INTERRUPT_BIT | MACHINE_TIMER_CODE {
        TrapCause::MachineTimer
    } else if mcause == INTERRUPT_BIT | MACHINE_SOFT_CODE {
        TrapCause::MachineSoft
    } else if mcause == SUPERVISOR_ENV_CALL_CODE {
        TrapCause::SupervisorEnvCall
    } else if mcause == ILLEGAL_INSTRUCTION_CODE {
        TrapCause::IllegalInstruction
    } else {
        TrapCause::Other(mcause)
    }
}

impl TrapCause {
    /// Decodes the machine cause register value `mcause`.
    pub fn from_mcause(mcause: usize) -> (r: TrapCause)
        ensures
            r == spec_trap_cause(mcause),
    {
        if mcause == INTERRUPT_BIT | MACHINE_TIMER_CODE {
            TrapCause::MachineTimer
        } else if mcause == INTERRUPT_BIT | MACHINE_SOFT_CODE {
            TrapCause::MachineSoft
        } else if mcause == SUPERVISOR_ENV_CALL_CODE {
            TrapCause::SupervisorEnvCall
        } else if mcause == ILLEGAL_INSTRUCTION_CODE {
            TrapCause::IllegalInstruction
        } else {
            TrapCause::Other(mcause)
        }
    }
}

/// What a trap captured from the supervisor reports to the dispatch loop.
#[derive(Clone, Copy, Debug, PartialEq, Eq, Structural)]
pub struct TrapEvent {
    /// The machine cause register.
    pub mcause: usize,
    /// The machine trap value register.
    pub mtval: usize,
    /// The time counter.
    pub time: usize,
    /// The supervisor trap vector register.
    pub stvec: usize,
}

/// What the dispatch loop does next.
#[derive(Clone, Copy, Debug)]
pub enum Action {
    /// Disarm the timer comparator, set the supervisor timer-pending bit, resume.
    RaiseSupervisorTimer,
    /// Clear the software interrupt, set the supervisor software-pending bit, resume.
    RaiseSupervisorSoft,
    /// Make this firmware call and hand its answer back.
    Call { extension: usize, function: usize, args: [usize; 6] },
    /// Resume the supervisor from the context.
    Resume,
    /// Load the supervisor trap registers, then resume from the context.
    Forward(ForwardedTrap),
    /// The session is over.
    Stop,
    /// Report the cause and halt.
    Halt(TrapCause),
    /// The trap cannot be forwarded: abort.
    Abort(ForwardError),
}

impl Context {
    /// Decides what to do about the trap `event`. For a firmware call,
    /// `answer` is the call table's answer once there is one.
    pub fn step(&mut self, event: TrapEvent, answer: Option<CallResult>) -> (r: Action)
        ensures
            ({
                let o = *old(self);
                let f = *final(self);
                match spec_trap_cause(event.mcause) {
                    TrapCause::MachineTimer => r == Action::RaiseSupervisorTimer && f == o,
                    TrapCause::MachineSoft => r == Action::RaiseSupervisorSoft && f == o,
                    TrapCause::SupervisorEnvCall => match answer {
                        None => f == o && (match r {
                            Action::Call { extension, function, args } => extension == o.arg(7)
                                && function == o.arg(6) && args@ == o.call_args(),
                            _ => false,
                        }),
                        Some(ret) => if stops(o.arg(7), o.arg(6), o.arg(0), ret) {
                            r == Action::Stop && f == o
                        } else {
                            r == Action::Resume && o.answered(f, ret)
                        },
                    },
                    TrapCause::IllegalInstruction => if is_rdtime(event.mtval) {
                        r == Action::Resume && o.time_read(f, event.mtval, event.time)
                    } else {
                        exists|t: Result<ForwardedTrap, ForwardError>|
                            forwarded(o, f, ILLEGAL_INSTRUCTION_CODE, event.mtval, event.stvec, t)
                                && r == match t {
                                Ok(ft) => Action::Forward(ft),
                                Err(e) => Action::Abort(e),
                            }
                    },
                    TrapCause::Other(bits) => r == Action::Halt(TrapCause::Other(bits)) && f == o,
                }
            }),
    {
        match TrapCause::from_mcause(event.mcause) {
            TrapCause::MachineTimer => Action::RaiseSupervisorTimer,
            TrapCause::MachineSoft => Action::RaiseSupervisorSoft,
            TrapCause::SupervisorEnvCall => match answer {
                None => {
                    let (extension, function, args) = self.ecall_request();
                    Action::Call { extension, function, args }
                },
                Some(ret) => if self.handle_ecall(ret) {
                    Action::Resume
                } else {
                    Action::Stop
                },
            },
            TrapCause::IllegalInstruction => if self.emulate_rdtime(event.mtval, event.time) {
                Action::Resume
            } else {
                let t = self.forward_trap(ILLEGAL_INSTRUCTION_CODE, event.mtval, event.stvec);
                match t {
                    Ok(ft) => Action::Forward(ft),
                    Err(e) => Action::Abort(e),
                }
            },
            TrapCause::Other(bits) => Action::Halt(TrapCause::Other(bits)),
        }
    }
}

} // verus!
