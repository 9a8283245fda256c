//! Machine-mode supervision core for a RISC-V hart: the saved register
//! context of a supervisor payload, the privilege switch between the live
//! register bank and that context, firmware-call dispatch, emulation of the
//! time-counter read, forwarding of traps into supervisor mode and the
//! per-trap decision of the dispatch loop; also the boot stage's progress
//! line for each image it loads.

pub mod call;
pub mod context;
pub mod emulate;
pub mod forward;
pub mod loading;
pub mod switch;
pub mod trap;
