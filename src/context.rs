//! The saved machine-mode view of a supervisor execution.
use vstd::prelude::*;

verus! {

/// Index of the first argument register `a0` in the general-purpose bank.
pub const A0_INDEX: usize = 10;

/// Where the payload starts and the word it is handed in `a1`.
#[derive(Clone, Copy, Debug, PartialEq, Eq, Structural)]
pub struct Supervisor {
    pub start_addr: usize,
    pub opaque: usize,
}

/// Registers of a supervisor execution as machine mode saves them.
///
/// `x[n - 1]` holds register `xn`; the zero register is never stored.
#[derive(Clone, Copy, Debug)]
pub struct Context {
    /// Machine stack pointer, saved while supervisor code runs.
    pub msp: usize,
    pub x: [usize; 31],
    pub mstatus: usize,
    pub mepc: usize,
}

impl Context {
    /// Register `xn` of the saved bank, for `1 <= n <= 31`.
    pub open spec fn reg(self, n: int) -> usize {
        self.x@[n - 1]
    }

    /// Argument register `an`, which is `x(n + 10)`.
    pub open spec fn arg(self, n: int) -> usize {
        self.reg(n + A0_INDEX as int)
    }

    /// A fresh context that starts the payload at `start_addr` with `a0 = 0`,
    /// `a1 = opaque` and every other register zero, under status word `mstatus`.
    pub fn new(supervisor: Supervisor, mstatus: usize) -> (r: Context)
        ensures
            r.msp == 0,
            r.mstatus == mstatus,
            r.mepc == supervisor.start_addr,
            r.arg(0) == 0,
            r.arg(1) == supervisor.opaque,
            forall|n: int| 1 <= n <= 31 && n != 11 ==> #[trigger] r.reg(n) == 0,
    {
        let mut ctx = Context { msp: 0, x: [0usize; 31], mstatus, mepc: supervisor.start_addr };
        ctx.set_a(0, 0);
        ctx.set_a(1, supervisor.opaque);
        ctx
    }

    /// Register `xn`.
    pub fn x(&self, n: usize) -> (r: usize)
        requires
            1 <= n <= 31,
        ensures
            r == self.reg(n as int),
    {
        self.x[n - 1]
    }

    /// Overwrites register `xn` with `v`, leaving the rest untouched.
    pub fn set_x(&mut self, n: usize, v: usize)
        requires
            1 <= n <= 31,
        ensures
            final(self).msp == old(self).msp,
            final(self).mstatus == old(self).mstatus,
            final(self).mepc == old(self).mepc,
            final(self).reg(n as int) == v,
            forall|m: int| 1 <= m <= 31 && m != n ==> #[trigger] final(self).reg(m) == old(self).reg(m),
    {
        self.x[n - 1] = v;
    }

    /// Argument register `an`.
    pub fn a(&self, n: usize) -> (r: usize)
        requires
            n <= 7,
        ensures
            r == self.arg(n as int),
    {
        self.x(n + A0_INDEX)
    }

    /// Overwrites argument register `an` with `v`.
    pub fn set_a(&mut self, n: usize, v: usize)
        requires
            n <= 7,
        ensures
            final(self).msp == old(self).msp,
            final(self).mstatus == old(self).mstatus,
            final(self).mepc == old(self).mepc,
            final(self).arg(n as int) == v,
            forall|m: int| 1 <= m <= 31 && m != n + 10 ==> #[trigger] final(self).reg(m) == old(self).reg(m),
    {
        self.set_x(n + A0_INDEX, v);
    }
}

} // verus!
