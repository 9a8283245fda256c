//! Emulation of the time-counter read, which the hart traps as illegal.
use vstd::prelude::*;
use crate::context::Context;

verus! {

/// The destination-register field of an instruction: five bits at bit 7.
pub const RD_MASK: usize = 0xF80;
/// Bit offset of the destination-register field.
pub const RD_SHIFT: usize = 7;
/// `csrrs rd, time, zero` with the destination field cleared.
pub const RDTIME_PATTERN: usize = 0xC0102073;

/// Whether `ins` reads the time counter into some register.
pub open spec fn is_rdtime(ins: usize) -> bool {
    ins & !RD_MASK == RDTIME_PATTERN
}

/// The destination register named by `ins`.
pub open spec fn rd_of(ins: usize) -> usize {
    (ins & RD_MASK) >> RD_SHIFT
}

proof fn lemma_rd_in_range(ins: usize)
    ensures
        rd_of(ins) <= 31,
{
    assert((ins & 0xF80usize) >> 7usize <= 31usize) by (bit_vector);
}

/// Two instructions that differ only in the destination-register field are
/// both time-counter reads or neither is.
pub proof fn lemma_rdtime_ignores_rd(a: usize, b: usize)
    requires
        (a ^ b) & !RD_MASK == 0,
    ensures
        is_rdtime(a) == is_rdtime(b),
{
    assert((a ^ b) & !0xF80usize == 0usize ==> a & !0xF80usize == b & !0xF80usize)
        by (bit_vector);
}

impl Context {
    /// `new` is `self` after emulating the time-counter read `ins` at counter
    /// value `now`: the destination register holds `now` unless it is `x0`,
    /// the program counter is past the instruction, everything else is as it was.
    pub open spec fn time_read(self, new: Context, ins: usize, now: usize) -> bool {
        &&& new.mepc == self.mepc.wrapping_add(4)
        &&& new.msp == self.msp
        &&& new.mstatus == self.mstatus
        &&& rd_of(ins) != 0 ==> new.reg(rd_of(ins) as int) == now
        &&& forall|n: int| 1 <= n <= 31 && n != rd_of(ins) ==> #[trigger] new.reg(n) == self.reg(n)
    }

    /// Emulates `ins` if it reads the time counter, `now` being the counter's
    /// value: writes `now` to the destination register unless it is `x0`,
    /// steps past the instruction and returns `true`. Any other instruction
    /// leaves the context untouched and gives `false`.
    pub fn emulate_rdtime(&mut self, ins: usize, now: usize) -> (r: bool)
        ensures
            r == is_rdtime(ins),
            !r ==> *final(self) == *old(self),
            r ==> old(self).time_read(*final(self), ins, now),
    {
        if ins & !RD_MASK == RDTIME_PATTERN {
            let rd = (ins & RD_MASK) >> RD_SHIFT;
            proof {
                lemma_rd_in_range(ins);
            }
            if rd != 0 {
                self.set_x(rd, now);
            }
            let ghost saved = *self;
            self.mepc = self.mepc.wrapping_add(4);
            assert(forall|n: int| #[trigger] self.reg(n) == saved.reg(n));
            true
        } else {
            false
        }
    }
}

} // verus!
