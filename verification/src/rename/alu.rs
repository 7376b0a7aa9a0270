//! The arithmetic and logic unit.

use super::storage::Storage;
use super::Operand;
use crate::models::semantics::{lemma_casts, signed, wrap32};
use vstd::prelude::*;

verus! {

/// Set of different arithmetic/logical operations.
#[derive(Clone, Copy, Debug, PartialEq, Eq, Structural)]
pub enum ALUOp {
    Add,
    Sub,
    And,
    Or,
    Xor,
    Ror,
    Rol,
    Lsl,
    Lsr,
    Asr,
    Lt,
    Ltu,
}

impl ALUOp {
    /// The result of the operation on `x` and `y`. Sums and differences wrap; shifts and
    /// rotations go by `y` modulo 32; the comparisons give 1 or 0.
    pub open spec fn eval(self, x: u32, y: u32) -> u32 {
        match self {
            ALUOp::Add => wrap32(x + y),
            ALUOp::Sub => wrap32(x - y),
            ALUOp::And => x & y,
            ALUOp::Or => x | y,
            ALUOp::Xor => x ^ y,
            ALUOp::Ror => (x >> (y % 32)) | (x << ((32 - y % 32) % 32) as u32),
            ALUOp::Rol => (x << (y % 32)) | (x >> ((32 - y % 32) % 32) as u32),
            ALUOp::Lsl => x << (y % 32),
            ALUOp::Lsr => x >> (y % 32),
            ALUOp::Asr => ((x as i32) >> (y % 32)) as u32,
            ALUOp::Lt => if signed(x) < signed(y) {
                1
            } else {
                0
            },
            ALUOp::Ltu => if x < y {
                1
            } else {
                0
            },
        }
    }
}

/// An arithmetic/logical instruction.
#[derive(Clone, Copy, Debug, PartialEq, Eq, Structural)]
pub struct ALUInst {
    pub op: ALUOp,
    pub x: Operand,
    pub y: Operand,
}

/// The result of an ALU instruction over the given registers, if both operands have their
/// values.
pub open spec fn alu_result(inst: ALUInst, s: &Storage) -> Option<u32> {
    match (s.operand_value(inst.x), s.operand_value(inst.y)) {
        (Some(x), Some(y)) => Some(inst.op.eval(x, y)),
        _ => None,
    }
}

/// `x` rotated right by `n` bits.
fn rotate_right(x: u32, n: u32) -> (r: u32)
    ensures
        r == (x >> (n % 32)) | (x << ((32 - n % 32) % 32) as u32),
{
    let by: u32 = n % 32;
    let back: u32 = (32 - by) % 32;
    (x >> by) | (x << back)
}

/// `x` rotated left by `n` bits.
fn rotate_left(x: u32, n: u32) -> (r: u32)
    ensures
        r == (x << (n % 32)) | (x >> ((32 - n % 32) % 32) as u32),
{
    let by: u32 = n % 32;
    let back: u32 = (32 - by) % 32;
    (x << by) | (x >> back)
}

/// Perform an ALU instruction.
///
/// Using a reference to some [Storage], try to resolve the concrete values of
/// the operands and compute the resulting value.
pub fn exec_alu_inst(inst: ALUInst, s: &Storage) -> (r: Option<u32>)
    requires
        s.wf(),
        s.has(inst.x),
        s.has(inst.y),
    ensures
        r == alu_result(inst, s),
{
    let (x, y) = (s.resolve_operand(inst.x), s.resolve_operand(inst.y));
    match (x, y) {
        (Some(x), Some(y)) => {
            proof {
                lemma_casts(x, 0);
                lemma_casts(y, 0);
            }
            let res = match inst.op {
                ALUOp::Add => x.wrapping_add(y),
                ALUOp::Sub => x.wrapping_sub(y),
                ALUOp::And => x & y,
                ALUOp::Or => x | y,
                ALUOp::Xor => x ^ y,
                ALUOp::Ror => rotate_right(x, y),
                ALUOp::Rol => rotate_left(x, y),
                ALUOp::Lsl => x.wrapping_shl(y),
                ALUOp::Lsr => x.wrapping_shr(y),
                ALUOp::Asr => (x as i32).wrapping_shr(y) as u32,
                ALUOp::Lt => if (x as i32) < (y as i32) {
                    1
                } else {
                    0
                },
                ALUOp::Ltu => if x < y {
                    1
                } else {
                    0
                },
            };
            Some(res)
        },
        _ => None,
    }
}

} // verus!
