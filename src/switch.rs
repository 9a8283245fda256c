//! The privilege switch as transfers between the hart's live register bank
//! and a saved context.
//!
//! Entering supervisor mode pushes the machine registers onto a 32-word
//! frame on the machine stack, records the lowered machine stack pointer in
//! the context, loads the supervisor registers, status and resume address
//! from the context and leaves the context's address in `mscratch`. A trap
//! back to machine mode swaps `sp` with `mscratch`, saves the supervisor
//! registers (the stack pointer through `mscratch`), status and exception
//! address into the context and pops the machine registers.
use vstd::prelude::*;
use crate::context::Context;

verus! {

/// Bytes that the machine frame takes on the machine stack.
pub const FRAME_BYTES: usize = 32 * 8;
/// Index of the stack pointer register `x2`.
pub const SP: usize = 2;

/// The hart's live general-purpose registers and the trap registers the
/// switch touches.
#[derive(Clone, Copy, Debug)]
pub struct RegisterBank {
    /// `x[n]` is register `xn`.
    pub x: [usize; 32],
    pub mscratch: usize,
    pub mstatus: usize,
    pub mepc: usize,
}

/// `bank`, `ctx` are the outcome of entering supervisor mode from `bank0`
/// with context `ctx0` held at `addr`, and `frame` the pushed machine frame.
pub open spec fn entered(
    bank0: RegisterBank,
    ctx0: Context,
    addr: usize,
    bank: RegisterBank,
    ctx: Context,
    frame: [usize; 32],
) -> bool {
    let msp = bank0.x@[2].wrapping_sub(FRAME_BYTES);
    &&& ctx.x == ctx0.x
    &&& ctx.mstatus == ctx0.mstatus
    &&& ctx.mepc == ctx0.mepc
    &&& ctx.msp == msp
    &&& frame@[2] == msp
    &&& forall|n: int| 1 <= n < 32 && n != 2 ==> #[trigger] frame@[n] == bank0.x@[n]
    &&& bank.x@[0] == bank0.x@[0]
    &&& forall|n: int| 1 <= n < 32 ==> #[trigger] bank.x@[n] == ctx0.reg(n)
    &&& bank.mscratch == addr
    &&& bank.mstatus == ctx0.mstatus
    &&& bank.mepc == ctx0.mepc
}

/// `bank`, `ctx` are the outcome of a trap from `bank0` into machine mode
/// with context `ctx0`, whose machine frame is `frame`.
pub open spec fn captured(
    bank0: RegisterBank,
    ctx0: Context,
    frame: [usize; 32],
    bank: RegisterBank,
    ctx: Context,
) -> bool {
    &&& ctx.msp == ctx0.msp
    &&& forall|n: int| 1 <= n < 32 ==> #[trigger] ctx.reg(n) == bank0.x@[n]
    &&& ctx.mstatus == bank0.mstatus
    &&& ctx.mepc == bank0.mepc
    &&& bank.x@[0] == bank0.x@[0]
    &&& bank.x@[2] == ctx0.msp.wrapping_add(FRAME_BYTES)
    &&& forall|n: int| 1 <= n < 32 && n != 2 ==> #[trigger] bank.x@[n] == frame@[n]
    &&& bank.mscratch == bank0.x@[2]
    &&& bank.mstatus == bank0.mstatus
    &&& bank.mepc == bank0.mepc
}

/// Switches from machine mode to the supervisor described by `ctx`, which
/// lives at address `addr`; returns the machine frame pushed on the way.
pub fn enter_supervisor(bank: &mut RegisterBank, ctx: &mut Context, addr: usize) -> (frame: [usize;
    32])
    ensures
        entered(*old(bank), *old(ctx), addr, *final(bank), *final(ctx), frame),
{
    let msp = bank.x[SP].wrapping_sub(FRAME_BYTES);
    bank.x[SP] = msp;
    let mut frame = [0usize; 32];
    let mut n: usize = 1;
    while n < 32
        invariant
            1 <= n <= 32,
            bank.x@[2] == msp,
            forall|m: int| 1 <= m < 32 && m != 2 ==> #[trigger] bank.x@[m] == old(bank).x@[m],
            forall|m: int| 1 <= m < n ==> #[trigger] frame@[m] == bank.x@[m],
        decreases 32 - n,
    {
        frame[n] = bank.x[n];
        n = n + 1;
    }
    ctx.msp = msp;
    bank.mscratch = ctx.x[SP - 1];
    bank.mstatus = ctx.mstatus;
    bank.mepc = ctx.mepc;
    bank.x[1] = ctx.x[0];
    let mut n: usize = 3;
    while n < 32
        invariant
            3 <= n <= 32,
            bank.x@[0] == old(bank).x@[0],
            bank.x@[1] == ctx.reg(1),
            bank.mscratch == ctx.reg(2),
            bank.mstatus == ctx.mstatus,
            bank.mepc == ctx.mepc,
            forall|m: int| 3 <= m < n ==> #[trigger] bank.x@[m] == ctx.reg(m),
        decreases 32 - n,
    {
        bank.x[n] = ctx.x[n - 1];
        n = n + 1;
    }
    bank.x[SP] = bank.mscratch;
    bank.mscratch = addr;
    frame
}

/// Takes a trap from the supervisor back to machine mode: saves the
/// supervisor registers into `ctx` and restores the machine registers from
/// `frame`.
pub fn trap_to_machine(bank: &mut RegisterBank, ctx: &mut Context, frame: &[usize; 32])
    ensures
        captured(*old(bank), *old(ctx), *frame, *final(bank), *final(ctx)),
{
    let supervisor_sp = bank.x[SP];
    bank.x[SP] = bank.mscratch;
    bank.mscratch = supervisor_sp;
    ctx.x[0] = bank.x[1];
    let mut n: usize = 3;
    while n < 32
        invariant
            3 <= n <= 32,
            ctx.msp == old(ctx).msp,
            ctx.x@[0] == old(bank).x@[1],
            bank.x@[0] == old(bank).x@[0],
            forall|m: int| 3 <= m < 32 ==> #[trigger] bank.x@[m] == old(bank).x@[m],
            bank.mscratch == old(bank).x@[2],
            bank.mstatus == old(bank).mstatus,
            bank.mepc == old(bank).mepc,
            forall|m: int| 2 <= m < n - 1 ==> #[trigger] ctx.x@[m] == old(bank).x@[m + 1],
        decreases 32 - n,
    {
        ctx.x[n - 1] = bank.x[n];
        n = n + 1;
    }
    ctx.x[SP - 1] = bank.mscratch;
    assert(forall|m: int| 3 <= m < 32 ==> #[trigger] ctx.reg(m) == ctx.x@[m - 1]);
    ctx.mstatus = bank.mstatus;
    ctx.mepc = bank.mepc;
    let mut n: usize = 1;
    while n < 32
        invariant
            1 <= n <= 32,
            bank.x@[0] == old(bank).x@[0],
            bank.mscratch == old(bank).x@[2],
            bank.mstatus == old(bank).mstatus,
            bank.mepc == old(bank).mepc,
            forall|m: int| 1 <= m < n ==> #[trigger] bank.x@[m] == frame@[m],
        decreases 32 - n,
    {
        bank.x[n] = frame[n];
        n = n + 1;
    }
    bank.x[SP] = ctx.msp.wrapping_add(FRAME_BYTES);
}

/// A trap taken right after entering supervisor mode hands back the context
/// it entered with, bit for bit, and the machine registers as they were.
pub proof fn lemma_switch_round_trip(
    bank0: RegisterBank,
    ctx0: Context,
    addr: usize,
    bank1: RegisterBank,
    ctx1: Context,
    frame: [usize; 32],
    bank2: RegisterBank,
    ctx2: Context,
)
    requires
        entered(bank0, ctx0, addr, bank1, ctx1, frame),
        captured(bank1, ctx1, frame, bank2, ctx2),
    ensures
        forall|n: int| 1 <= n <= 31 ==> #[trigger] ctx2.reg(n) == ctx0.reg(n),
        ctx2.mstatus == ctx0.mstatus,
        ctx2.mepc == ctx0.mepc,
        forall|n: int| 0 <= n < 32 ==> #[trigger] bank2.x@[n] == bank0.x@[n],
{
    let sp = bank0.x@[2];
    assert(sp.wrapping_sub(FRAME_BYTES).wrapping_add(FRAME_BYTES) == sp);
}

} // verus!
