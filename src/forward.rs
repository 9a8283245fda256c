//! Forwarding a trap the machine level does not service into supervisor mode.
use vstd::prelude::*;
use crate::context::Context;

verus! {

/// Supervisor interrupt enable.
pub const SIE_BIT: usize = 1 << 1;
/// Supervisor previous interrupt enable.
pub const SPIE_BIT: usize = 1 << 5;
/// Supervisor previous privilege.
pub const SPP_BIT: usize = 1 << 8;
/// Offset of the two machine previous privilege bits.
pub const MPP_SHIFT: usize = 11;
/// The machine previous privilege field.
pub const MPP_MASK: usize = 3 << 11;
/// The machine previous privilege field holding supervisor.
pub const MPP_SUPERVISOR: usize = 1 << 11;
/// Low bits of the trap vector register that select its mode.
pub const TVEC_MODE_MASK: usize = 3;

/// The mode a supervisor trap was taken from, as `sstatus.SPP` records it.
#[derive(Clone, Copy, Debug, PartialEq, Eq, Structural)]
pub enum PreviousMode {
    User,
    Supervisor,
}

/// Why a trap cannot be handed to supervisor mode.
#[derive(Clone, Copy, Debug, PartialEq, Eq, Structural)]
pub enum ForwardError {
    /// The trap was taken from a mode above supervisor; the field's value.
    InvalidPreviousPrivilege(usize),
}

/// What the supervisor trap registers must hold for a forwarded trap.
#[derive(Clone, Copy, Debug, PartialEq, Eq, Structural)]
pub struct ForwardedTrap {
    pub scause: usize,
    pub stval: usize,
    pub sepc: usize,
}

/// The two-bit machine previous privilege field of `mstatus`.
pub open spec fn previous_privilege(mstatus: usize) -> usize {
    (mstatus >> MPP_SHIFT) & 3
}

/// User (`0`) and supervisor (`1`) map to their supervisor-mode tag; any
/// other value has none.
pub open spec fn spec_previous_mode(mpp: usize) -> Option<PreviousMode> {
    if mpp == 0 {
        Some(PreviousMode::User)
    } else if mpp == 1 {
        Some(PreviousMode::Supervisor)
    } else {
        None
    }
}

/// The supervisor-mode tag for the machine previous privilege `mpp`.
pub fn previous_mode(mpp: usize) -> (r: Option<PreviousMode>)
    ensures
        r == spec_previous_mode(mpp),
{
    if mpp == 0 {
        Some(PreviousMode::User)
    } else if mpp == 1 {
        Some(PreviousMode::Supervisor)
    } else {
        None
    }
}

/// `mstatus` set to resume in supervisor mode with `spp` as previous mode,
/// before interrupt enables are moved.
pub open spec fn with_previous_modes(mstatus: usize, spp: PreviousMode) -> usize {
    let s = (mstatus & !MPP_MASK) | MPP_SUPERVISOR;
    if spp == PreviousMode::Supervisor {
        s | SPP_BIT
    } else {
        s & !SPP_BIT
    }
}

/// `mstatus` after supervisor trap entry: resume in supervisor mode, record
/// `spp`, and if supervisor interrupts were enabled move that into the
/// previous-enable bit and clear the live one.
pub open spec fn forwarded_status(mstatus: usize, spp: PreviousMode) -> usize {
    let s = with_previous_modes(mstatus, spp);
    if s & SIE_BIT != 0 {
        (s | SPIE_BIT) & !SIE_BIT
    } else {
        s
    }
}

/// The handler address held by a trap vector register value.
pub open spec fn vector_address(tvec: usize) -> usize {
    tvec & !TVEC_MODE_MASK
}

/// The outcome of forwarding a trap with cause `scause` and value `mtval` to
/// the handler in `stvec`, from context `old` to context `new`.
pub open spec fn forwarded(
    old: Context,
    new: Context,
    scause: usize,
    mtval: usize,
    stvec: usize,
    r: Result<ForwardedTrap, ForwardError>,
) -> bool {
    let mpp = previous_privilege(old.mstatus);
    &&& new.msp == old.msp
    &&& new.x == old.x
    &&& mpp >= 2 ==> r == Err::<ForwardedTrap, ForwardError>(
        ForwardError::InvalidPreviousPrivilege(mpp),
    ) && new == old
    &&& mpp < 2 ==> r == Ok::<ForwardedTrap, ForwardError>(
        (ForwardedTrap { scause, stval: mtval, sepc: old.mepc }),
    )
    &&& mpp < 2 ==> new.mstatus == forwarded_status(old.mstatus, spec_previous_mode(mpp)->Some_0)
    &&& mpp < 2 ==> new.mepc == vector_address(stvec)
}

impl Context {
    /// Rewrites the context so that the next resume enters the supervisor
    /// trap handler found in `stvec`, as if the hart had taken the trap with
    /// cause `scause` and value `mtval` in supervisor mode; returns what the
    /// supervisor trap registers must hold.
    ///
    /// A trap taken from a mode above supervisor cannot be forwarded: that
    /// gives an error and leaves the context untouched.
    pub fn forward_trap(&mut self, scause: usize, mtval: usize, stvec: usize) -> (r: Result<
        ForwardedTrap,
        ForwardError,
    >)
        ensures
            forwarded(*old(self), *final(self), scause, mtval, stvec, r),
    {
        let mpp = (self.mstatus >> MPP_SHIFT) & 3;
        let spp = match previous_mode(mpp) {
            Some(m) => m,
            None => {
                return Err(ForwardError::InvalidPreviousPrivilege(mpp));
            },
        };
        let mut status = (self.mstatus & !MPP_MASK) | MPP_SUPERVISOR;
        status = match spp {
            PreviousMode::Supervisor => status | SPP_BIT,
            PreviousMode::User => status & !SPP_BIT,
        };
        if status & SIE_BIT != 0 {
            status = (status | SPIE_BIT) & !SIE_BIT;
        }
        let sepc = self.mepc;
        self.mstatus = status;
        self.mepc = stvec & !TVEC_MODE_MASK;
        Ok(ForwardedTrap { scause, stval: mtval, sepc })
    }
}

} // verus!
