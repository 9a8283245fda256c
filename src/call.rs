//! Firmware-call dispatch: what a supervisor `ecall` leaves behind once the
//! call table has answered it.
use vstd::prelude::*;
use crate::context::Context;

verus! {

/// Status word of a successful call.
pub const RET_SUCCESS: usize = 0;
/// Hart State Management extension.
pub const EID_HSM: usize = 0x48534D;
/// Stops the calling hart.
pub const HART_STOP: usize = 1;
/// Suspends the calling hart.
pub const HART_SUSPEND: usize = 3;
/// Suspend type whose state is not kept across the suspension.
pub const HART_SUSPEND_TYPE_NON_RETENTIVE: usize = 0x8000_0000;
/// System Reset extension.
pub const EID_SRST: usize = 0x53525354;
/// Resets the system.
pub const SYSTEM_RESET: usize = 0;
/// Cold reboot reset type.
pub const RESET_TYPE_COLD_REBOOT: usize = 1;
/// Warm reboot reset type.
pub const RESET_TYPE_WARM_REBOOT: usize = 2;

/// What the call table answered: a status word and a value.
#[derive(Clone, Copy, Debug, PartialEq, Eq, Structural)]
pub struct CallResult {
    pub error: usize,
    pub value: usize,
}

/// What the dispatcher makes of a call.
#[derive(Clone, Copy, Debug, PartialEq, Eq, Structural)]
pub enum CallOutcome {
    /// The supervisor resumes with `error` in `a0` and `value` in `a1`.
    Continue { error: usize, value: usize },
    /// The supervision session is over.
    Stop,
}

/// A call that, once it succeeded, leaves nothing to resume: hart stop,
/// non-retentive hart suspend, cold or warm system reset.
pub open spec fn ends_session(extension: usize, function: usize, arg0: usize) -> bool {
    (extension == EID_HSM && (function == HART_STOP || (function == HART_SUSPEND && arg0
        == HART_SUSPEND_TYPE_NON_RETENTIVE))) || (extension == EID_SRST && function
        == SYSTEM_RESET && (arg0 == RESET_TYPE_COLD_REBOOT || arg0 == RESET_TYPE_WARM_REBOOT))
}

/// Whether a call with these identifiers, first argument and answer stops the session.
pub open spec fn stops(extension: usize, function: usize, arg0: usize, ret: CallResult) -> bool {
    ret.error == RET_SUCCESS && ends_session(extension, function, arg0)
}

/// The outcome of a call as a function of its identifiers, first argument and answer.
pub open spec fn spec_call_outcome(
    extension: usize,
    function: usize,
    arg0: usize,
    ret: CallResult,
) -> CallOutcome {
    if stops(extension, function, arg0, ret) {
        CallOutcome::Stop
    } else {
        CallOutcome::Continue { error: ret.error, value: ret.value }
    }
}

/// Classifies a call answered by the call table.
pub fn call_outcome(extension: usize, function: usize, arg0: usize, ret: CallResult) -> (r:
    CallOutcome)
    ensures
        r == spec_call_outcome(extension, function, arg0, ret),
{
    if ret.error == RET_SUCCESS {
        if extension == EID_HSM {
            if function == HART_STOP || (function == HART_SUSPEND && arg0
                == HART_SUSPEND_TYPE_NON_RETENTIVE) {
                return CallOutcome::Stop;
            }
        } else if extension == EID_SRST {
            if function == SYSTEM_RESET && (arg0 == RESET_TYPE_COLD_REBOOT || arg0
                == RESET_TYPE_WARM_REBOOT) {
                return CallOutcome::Stop;
            }
        }
    }
    CallOutcome::Continue { error: ret.error, value: ret.value }
}

/// A successful call ends the session exactly when it is a hart stop, a
/// non-retentive hart suspend, or a cold or warm system reset; every other
/// answer lets the supervisor continue with that answer.
pub proof fn lemma_session_ending_calls(extension: usize, function: usize, arg0: usize, ret: CallResult)
    ensures
        spec_call_outcome(extension, function, arg0, ret) == CallOutcome::Stop <==> ret.error
            == RET_SUCCESS && ((extension == EID_HSM && function == HART_STOP) || (extension
            == EID_HSM && function == HART_SUSPEND && arg0 == HART_SUSPEND_TYPE_NON_RETENTIVE) || (
        extension == EID_SRST && function == SYSTEM_RESET && arg0 == RESET_TYPE_COLD_REBOOT) || (
        extension == EID_SRST && function == SYSTEM_RESET && arg0 == RESET_TYPE_WARM_REBOOT)),
        spec_call_outcome(extension, function, arg0, ret) != CallOutcome::Stop ==> spec_call_outcome(
            extension,
            function,
            arg0,
            ret,
        ) == (CallOutcome::Continue { error: ret.error, value: ret.value }),
{
}

impl Context {
    /// The six argument registers `a0` to `a5` handed to the call table.
    pub open spec fn call_args(self) -> Seq<usize> {
        seq![self.arg(0), self.arg(1), self.arg(2), self.arg(3), self.arg(4), self.arg(5)]
    }

    /// `self` equals `other` but for `a0`, `a1` and the program counter.
    pub open spec fn same_except_results(self, other: Context) -> bool {
        &&& self.msp == other.msp
        &&& self.mstatus == other.mstatus
        &&& forall|n: int| 1 <= n <= 31 && n != 10 && n != 11 ==> #[trigger] self.reg(n) == other.reg(n)
    }

    /// `new` is `self` after a call answered by `ret` that lets the supervisor
    /// continue: the answer in `a0` and `a1`, the program counter past the
    /// 4-byte `ecall`, everything else as it was.
    pub open spec fn answered(self, new: Context, ret: CallResult) -> bool {
        &&& new.arg(0) == ret.error
        &&& new.arg(1) == ret.value
        &&& new.mepc == self.mepc.wrapping_add(4)
        &&& new.same_except_results(self)
    }

    /// The extension, function and arguments of the pending call:
    /// `(a7, a6, [a0, .., a5])`.
    pub fn ecall_request(&self) -> (r: (usize, usize, [usize; 6]))
        ensures
            r.0 == self.arg(7),
            r.1 == self.arg(6),
            r.2@ == self.call_args(),
    {
        let args = [self.a(0), self.a(1), self.a(2), self.a(3), self.a(4), self.a(5)];
        assert(args@ =~= self.call_args());
        (self.a(7), self.a(6), args)
    }

    /// Completes a supervisor `ecall` with the call table's answer `ret`.
    ///
    /// Returns `false` when the call ends the session, and then leaves the
    /// context untouched. Otherwise writes the answer to `a0` and `a1`, steps
    /// past the 4-byte `ecall` and returns `true`.
    pub fn handle_ecall(&mut self, ret: CallResult) -> (r: bool)
        ensures
            r == !stops(old(self).arg(7), old(self).arg(6), old(self).arg(0), ret),
            !r ==> *final(self) == *old(self),
            r ==> old(self).answered(*final(self), ret),
    {
        let extension = self.a(7);
        let function = self.a(6);
        match call_outcome(extension, function, self.a(0), ret) {
            CallOutcome::Stop => false,
            CallOutcome::Continue { error, value } => {
                let ghost before = *self;
                self.set_a(0, error);
                self.set_a(1, value);
                assert(self.reg(10) == error);
                assert(forall|n: int| 1 <= n <= 31 && n != 10 && n != 11 ==> #[trigger] self.reg(n) == before.reg(n));
                let ghost saved = *self;
                self.mepc = self.mepc.wrapping_add(4);
                assert(forall|n: int| #[trigger] self.reg(n) == saved.reg(n));
                assert(forall|n: int| 1 <= n <= 31 && n != 10 && n != 11 ==> #[trigger] self.reg(n) == before.reg(n));
                true
            },
        }
    }
}

} // verus!
