//! The register file of the interpreter.

use crate::rv32::RvReg;
use vstd::prelude::*;

verus! {

/// The value that register x1 starts with. A return to this address halts the machine.
pub const SENTINEL: u32 = 0xdead_0000;

/// The value that register x2, the stack pointer, starts with.
pub const INITIAL_SP: u32 = 0x000f_0000;

/// The shape of every register file: 32 registers, the first of them zero.
pub open spec fn regs_wf(regs: Seq<u32>) -> bool {
    regs.len() == 32 && regs[0] == 0
}

/// The registers at reset: x1 holds the sentinel, x2 the initial stack pointer, the rest zero.
pub open spec fn initial_regs() -> Seq<u32> {
    Seq::new(
        32,
        |i: int|
            if i == 1 {
                SENTINEL
            } else if i == 2 {
                INITIAL_SP
            } else {
                0u32
            },
    )
}

/// The registers after `val` is written to register `idx`: a write to register 0 is dropped.
pub open spec fn write_reg(regs: Seq<u32>, idx: int, val: u32) -> Seq<u32> {
    if idx == 0 {
        regs
    } else {
        regs.update(idx, val)
    }
}

/// The 32 general-purpose registers. Register 0 reads as zero whatever is written to it.
pub struct RvRegs {
    data: [u32; 32],
}

impl View for RvRegs {
    type V = Seq<u32>;

    closed spec fn view(&self) -> Seq<u32> {
        Seq::new(
            32,
            |i: int|
                if i == 0 {
                    0u32
                } else {
                    self.data@[i]
                },
        )
    }
}

impl RvRegs {
    /// Every register file has 32 registers, and register 0 holds zero.
    pub proof fn lemma_wf(&self)
        ensures
            regs_wf(self@),
    {
    }

    /// The registers at reset.
    pub fn new() -> (r: Self)
        ensures
            r@ == initial_regs(),
    {
        let mut res = Self { data: [0u32; 32] };
        res.data[1] = SENTINEL;
        res.data[2] = INITIAL_SP;
        assert(res@ =~= initial_regs());
        res
    }

    /// The value of register `idx`.
    pub fn read(&self, idx: RvReg) -> (r: u32)
        requires
            idx.wf(),
        ensures
            r == self@[idx.0 as int],
            idx.0 == 0 ==> r == 0,
    {
        if idx.0 == 0 {
            0
        } else {
            self.data[idx.0]
        }
    }

    /// Writes `val` to register `idx`, unless that is register 0.
    pub fn write(&mut self, idx: RvReg, val: u32)
        requires
            idx.wf(),
        ensures
            final(self)@ == write_reg(old(self)@, idx.0 as int, val),
    {
        if idx.0 != 0 {
            self.data[idx.0] = val;
        }
        assert(self@ =~= write_reg(old(self)@, idx.0 as int, val));
    }
}

} // verus!
