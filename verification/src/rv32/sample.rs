//! Random instructions, for driving a machine without a program.

use super::instr::{RvALUOp, RvInstr, RvReg, RvWidth};
use crate::entropy::random_between;
use crate::models::semantics::wrap32;
use vstd::prelude::*;

verus! {

/// The width that the draw `n` stands for.
pub fn width_from_draw(n: i32) -> (r: RvWidth)
    ensures
        r == if n == 0 {
            RvWidth::Byte
        } else if n == 1 {
            RvWidth::Half
        } else {
            RvWidth::Word
        },
{
    match n {
        0 => RvWidth::Byte,
        1 => RvWidth::Half,
        _ => RvWidth::Word,
    }
}

/// The operation that the draw `n` stands for in a register-register instruction.
pub open spec fn alu_op_of_draw(n: int) -> RvALUOp {
    if n == 0 {
        RvALUOp::Add
    } else if n == 1 {
        RvALUOp::Sub
    } else if n == 2 {
        RvALUOp::Sll
    } else if n == 3 {
        RvALUOp::Slt
    } else if n == 4 {
        RvALUOp::Sltu
    } else if n == 5 {
        RvALUOp::Xor
    } else if n == 6 {
        RvALUOp::Srl
    } else if n == 7 {
        RvALUOp::Sra
    } else if n == 8 {
        RvALUOp::Or
    } else {
        RvALUOp::And
    }
}

/// The operation that the draw `n` stands for.
pub fn alu_op_from_draw(n: i32) -> (r: RvALUOp)
    ensures
        r == alu_op_of_draw(n as int),
{
    match n {
        0 => RvALUOp::Add,
        1 => RvALUOp::Sub,
        2 => RvALUOp::Sll,
        3 => RvALUOp::Slt,
        4 => RvALUOp::Sltu,
        5 => RvALUOp::Xor,
        6 => RvALUOp::Srl,
        7 => RvALUOp::Sra,
        8 => RvALUOp::Or,
        _ => RvALUOp::And,
    }
}

/// The instructions that `random_instr` can give: they name the low eight registers only
/// and never write register 0; there is no immediate subtraction; a shift amount is below
/// 32 and any other immediate at most 0xfff in magnitude.
pub open spec fn can_be_drawn(instr: RvInstr) -> bool {
    match instr {
        RvInstr::OpImm(rd, rs1, imm, op) => 1 <= rd.0 <= 7 && rs1.0 <= 7 && op != RvALUOp::Sub
            && if op.is_shift() {
            0 <= imm < 32
        } else {
            -0xfff <= imm <= 0xfff
        },
        RvInstr::Op(rd, rs1, rs2, _) => 1 <= rd.0 <= 7 && rs1.0 <= 7 && rs2.0 <= 7,
        RvInstr::Load(rd, rs1, imm, _) => 1 <= rd.0 <= 7 && rs1.0 <= 7 && -0xfff <= imm <= 0xfff,
        RvInstr::Lui(rd, uimm) => 1 <= rd.0 <= 7 && uimm % 0x1000 == 0,
        _ => false,
    }
}

/// The register-immediate instruction made of the drawn parts: a subtraction becomes an
/// addition.
pub fn op_imm_from_draws(rd: RvReg, rs1: RvReg, imm: i32, op: RvALUOp) -> (r: RvInstr)
    ensures
        r == RvInstr::OpImm(
            rd,
            rs1,
            imm,
            if op == RvALUOp::Sub {
                RvALUOp::Add
            } else {
                op
            },
        ),
{
    match op {
        RvALUOp::Sub => RvInstr::OpImm(rd, rs1, imm, RvALUOp::Add),
        _ => RvInstr::OpImm(rd, rs1, imm, op),
    }
}

/// The `lui` made of the drawn parts: the low 20 bits of the draw go to bits [31:12].
pub fn lui_from_draws(rd: RvReg, upper: i32) -> (r: RvInstr)
    ensures
        r == RvInstr::Lui(rd, wrap32(upper * 0x1000)),
{
    let bits = upper as u32;
    assert(bits << 12 == (((upper as int) * 0x1000) % 0x1_0000_0000) as u32) by (bit_vector)
        requires
            bits == upper as u32,
    ;
    RvInstr::Lui(rd, bits << 12)
}

/// A random instruction: with equal chance a register-immediate operation, a
/// register-register operation, a load or a `lui`.
pub fn random_instr() -> (r: RvInstr)
    ensures
        can_be_drawn(r),
        r.wf(),
{
    let rd = RvReg(random_between(1, 7) as usize);
    let rs1 = RvReg(random_between(0, 7) as usize);
    let rs2 = RvReg(random_between(0, 7) as usize);
    let op = alu_op_from_draw(random_between(0, 9));
    match random_between(0, 3) {
        0 => {
            let imm = match op {
                RvALUOp::Sll | RvALUOp::Srl | RvALUOp::Sra => random_between(0, 31),
                _ => random_between(-0xfff, 0xfff),
            };
            op_imm_from_draws(rd, rs1, imm, op)
        },
        1 => RvInstr::Op(rd, rs1, rs2, op),
        2 => {
            let imm = random_between(-0xfff, 0xfff);
            let w = width_from_draw(random_between(0, 2));
            RvInstr::Load(rd, rs1, imm, w)
        },
        _ => lui_from_draws(rd, random_between(0x0000_0000, 0x000f_ffff)),
    }
}

} // verus!
