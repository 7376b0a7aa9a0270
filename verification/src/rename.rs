//! Execution units over renamed registers: operands are immediates or architectural
//! registers, and an architectural register may stand for a physical register whose value
//! is still to come.

pub mod alu;
pub mod lsu;
pub mod storage;

use vstd::prelude::*;

verus! {

/// Different kinds of input data to an instruction.
#[derive(Clone, Copy, Debug, PartialEq, Eq, Structural)]
pub enum Operand {
    /// The name of an architectural register.
    ArchReg(usize),
    /// An immediate value encoded directly within an instruction.
    Imm(u32),
}

} // verus!
