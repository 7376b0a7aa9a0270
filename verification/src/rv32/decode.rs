//! The decoder: from a raw word to a typed instruction.

use super::bits::bits;
use super::encoding::RvEncoding;
use super::instr::{RvALUOp, RvBranchOp, RvInstr, RvReg, RvWidth};
use super::opcode::RvOpcode;
use vstd::prelude::*;

verus! {

/// Why a word is not an instruction of the base integer set.
#[derive(Clone, Copy, Debug, PartialEq, Eq, Structural)]
pub enum DecodeError {
    /// Bits [1:0] are not `11`: the word starts a 16-bit compressed instruction.
    Compressed,
    /// The major opcode is none of the base set's.
    UndefinedOpcode,
    /// The major opcode is known, but `funct3` or `funct7` select nothing under it.
    ReservedFunct,
}

impl RvEncoding {
    /// The destination register field.
    pub open spec fn spec_rd(self) -> RvReg {
        RvReg(bits(self.0, 11, 7) as usize)
    }

    /// The first source register field.
    pub open spec fn spec_rs1(self) -> RvReg {
        RvReg(bits(self.0, 19, 15) as usize)
    }

    /// The second source register field.
    pub open spec fn spec_rs2(self) -> RvReg {
        RvReg(bits(self.0, 24, 20) as usize)
    }

    /// A register-register ALU instruction: `funct3` and `funct7` select the operation.
    pub open spec fn decoded_op(self) -> Result<RvInstr, DecodeError> {
        match RvALUOp::of_funct(bits(self.0, 14, 12), bits(self.0, 31, 25)) {
            Some(op) => Ok(RvInstr::Op(self.spec_rd(), self.spec_rs1(), self.spec_rs2(), op)),
            None => Err(DecodeError::ReservedFunct),
        }
    }

    /// A register-immediate ALU instruction. For the shifts (`funct3` 001 and 101) `funct7`
    /// selects the kind of shift and the immediate is the shift amount in bits [24:20]; for
    /// the others `funct3` alone selects the operation and the immediate is the I-immediate.
    pub open spec fn decoded_op_imm(self) -> Result<RvInstr, DecodeError> {
        let f3 = bits(self.0, 14, 12);
        if f3 == 0b001 || f3 == 0b101 {
            match RvALUOp::of_funct(f3, bits(self.0, 31, 25)) {
                Some(op) => Ok(
                    RvInstr::OpImm(
                        self.spec_rd(),
                        self.spec_rs1(),
                        bits(self.0, 24, 20) as i32,
                        op,
                    ),
                ),
                None => Err(DecodeError::ReservedFunct),
            }
        } else {
            match RvALUOp::of_funct(f3, 0) {
                Some(op) => Ok(
                    RvInstr::OpImm(self.spec_rd(), self.spec_rs1(), self.imm_i() as i32, op),
                ),
                None => Err(DecodeError::ReservedFunct),
            }
        }
    }

    /// A load: bit 2 of `funct3` asks for zero extension, the low two bits give the width.
    /// There is no zero-extending word load.
    pub open spec fn decoded_load(self) -> Result<RvInstr, DecodeError> {
        let f3 = bits(self.0, 14, 12);
        if f3 == 0b100 || f3 == 0b101 {
            match RvWidth::of_funct3(f3 - 4) {
                Some(w) => Ok(
                    RvInstr::LoadU(self.spec_rd(), self.spec_rs1(), self.imm_i() as i32, w),
                ),
                None => Err(DecodeError::ReservedFunct),
            }
        } else {
            match RvWidth::of_funct3(f3) {
                Some(w) => Ok(
                    RvInstr::Load(self.spec_rd(), self.spec_rs1(), self.imm_i() as i32, w),
                ),
                None => Err(DecodeError::ReservedFunct),
            }
        }
    }

    /// A store: `funct3` gives the width.
    pub open spec fn decoded_store(self) -> Result<RvInstr, DecodeError> {
        match RvWidth::of_funct3(bits(self.0, 14, 12)) {
            Some(w) => Ok(
                RvInstr::Store(self.spec_rs1(), self.spec_rs2(), self.imm_s() as i32, w),
            ),
            None => Err(DecodeError::ReservedFunct),
        }
    }

    /// A conditional branch: `funct3` gives the relation.
    pub open spec fn decoded_branch(self) -> Result<RvInstr, DecodeError> {
        match RvBranchOp::of_funct3(bits(self.0, 14, 12)) {
            Some(op) => Ok(
                RvInstr::Branch(self.spec_rs1(), self.spec_rs2(), self.imm_b() as i32, op),
            ),
            None => Err(DecodeError::ReservedFunct),
        }
    }

    /// An indirect jump: `funct3` must be 000.
    pub open spec fn decoded_jalr(self) -> Result<RvInstr, DecodeError> {
        if bits(self.0, 14, 12) == 0b000 {
            Ok(RvInstr::Jalr(self.spec_rd(), self.spec_rs1(), self.imm_i() as i32))
        } else {
            Err(DecodeError::ReservedFunct)
        }
    }

    /// A fence: `funct3` 000 is `fence`, 001 is `fence.i`; the other fields are not looked at.
    pub open spec fn decoded_misc_mem(self) -> Result<RvInstr, DecodeError> {
        let f3 = bits(self.0, 14, 12);
        if f3 == 0b000 || f3 == 0b001 {
            Ok(RvInstr::Fence)
        } else {
            Err(DecodeError::ReservedFunct)
        }
    }

    /// A system instruction: with every other field zero, immediate 0 is `ecall` and
    /// immediate 1 is `ebreak`.
    pub open spec fn decoded_system(self) -> Result<RvInstr, DecodeError> {
        if bits(self.0, 19, 7) != 0 {
            Err(DecodeError::ReservedFunct)
        } else if bits(self.0, 31, 20) == 0 {
            Ok(RvInstr::Ecall)
        } else if bits(self.0, 31, 20) == 1 {
            Ok(RvInstr::Ebreak)
        } else {
            Err(DecodeError::ReservedFunct)
        }
    }

    /// The instruction that the word encodes, or the reason why it encodes none.
    pub open spec fn decoded(self) -> Result<RvInstr, DecodeError> {
        if bits(self.0, 1, 0) != 0b11 {
            Err(DecodeError::Compressed)
        } else {
            match self.spec_opcode() {
                Some(RvOpcode::OP) => self.decoded_op(),
                Some(RvOpcode::OP_IMM) => self.decoded_op_imm(),
                Some(RvOpcode::LOAD) => self.decoded_load(),
                Some(RvOpcode::STORE) => self.decoded_store(),
                Some(RvOpcode::JAL) => Ok(RvInstr::Jal(self.spec_rd(), self.imm_j() as i32)),
                Some(RvOpcode::LUI) => Ok(RvInstr::Lui(self.spec_rd(), self.imm_u() as u32)),
                Some(RvOpcode::AUIPC) => Ok(RvInstr::Auipc(self.spec_rd(), self.imm_u() as u32)),
                Some(RvOpcode::BRANCH) => self.decoded_branch(),
                Some(RvOpcode::JALR) => self.decoded_jalr(),
                Some(RvOpcode::MISC_MEM) => self.decoded_misc_mem(),
                Some(RvOpcode::SYSTEM) => self.decoded_system(),
                _ => Err(DecodeError::UndefinedOpcode),
            }
        }
    }

    /// Decoding depends on the word alone: equal words decode alike.
    pub proof fn lemma_decode_deterministic(a: RvEncoding, b: RvEncoding)
        requires
            a.0 == b.0,
        ensures
            a.decoded() == b.decoded(),
    {
    }

    /// Every register that a decoded instruction names is one of the 32.
    pub proof fn lemma_decoded_wf(self)
        ensures
            self.decoded() matches Ok(instr) ==> instr.wf(),
    {
    }

    /// Whether the word is one of the two system instructions, which the decoder tells apart
    /// by the whole word.
    fn system(&self) -> (r: Result<RvInstr, DecodeError>)
        ensures
            r == self.decoded_system(),
    {
        proof {
                lemma_system_fields(self.0);
        }
        if self.0 & 0x000f_ff80 != 0 {
            Err(DecodeError::ReservedFunct)
        } else if self.0 >> 20 == 0 {
            Ok(RvInstr::Ecall)
        } else if self.0 >> 20 == 1 {
            Ok(RvInstr::Ebreak)
        } else {
            Err(DecodeError::ReservedFunct)
        }
    }

    /// Decodes the word.
    pub fn decode(&self) -> (r: Result<RvInstr, DecodeError>)
        ensures
            r == self.decoded(),
            r matches Ok(instr) ==> instr.wf(),
    {
        proof {
                super::bits::lemma_fields(self.0);
            self.lemma_decoded_wf();
        }
        if self.0 & 0b11 != 0b11 {
            return Err(DecodeError::Compressed);
        }
        let opcode = match self.opcode() {
            Some(op) => op,
            None => {
                return Err(DecodeError::UndefinedOpcode);
            },
        };
        match opcode {
            RvOpcode::OP => {
                match RvALUOp::from_funct(self.f3(), self.f7()) {
                    Some(alu_op) => Ok(RvInstr::Op(self.rd(), self.rs1(), self.rs2(), alu_op)),
                    None => Err(DecodeError::ReservedFunct),
                }
            },
            RvOpcode::OP_IMM => {
                let f3 = self.f3();
                if f3 == 0b001 || f3 == 0b101 {
                    match RvALUOp::from_funct(f3, self.f7()) {
                        Some(alu_op) => {
                            let shamt = self.rs2().0 as i32;
                            Ok(RvInstr::OpImm(self.rd(), self.rs1(), shamt, alu_op))
                        },
                        None => Err(DecodeError::ReservedFunct),
                    }
                } else {
                    match (RvALUOp::from_funct(f3, 0b0000000), self.simm()) {
                        (Some(alu_op), Some(imm)) => Ok(
                            RvInstr::OpImm(self.rd(), self.rs1(), imm, alu_op),
                        ),
                        _ => Err(DecodeError::ReservedFunct),
                    }
                }
            },
            RvOpcode::LOAD => {
                let f3 = self.f3();
                let width = if f3 == 0b100 || f3 == 0b101 {
                    RvWidth::from_funct3(f3 - 4)
                } else {
                    RvWidth::from_funct3(f3)
                };
                match (width, self.simm()) {
                    (Some(w), Some(imm)) => {
                        if f3 >= 0b100 {
                            Ok(RvInstr::LoadU(self.rd(), self.rs1(), imm, w))
                        } else {
                            Ok(RvInstr::Load(self.rd(), self.rs1(), imm, w))
                        }
                    },
                    _ => Err(DecodeError::ReservedFunct),
                }
            },
            RvOpcode::STORE => {
                match (RvWidth::from_funct3(self.f3()), self.simm()) {
                    (Some(w), Some(imm)) => Ok(RvInstr::Store(self.rs1(), self.rs2(), imm, w)),
                    _ => Err(DecodeError::ReservedFunct),
                }
            },
            RvOpcode::JAL => {
                match self.simm() {
                    Some(imm) => Ok(RvInstr::Jal(self.rd(), imm)),
                    None => Err(DecodeError::ReservedFunct),
                }
            },
            RvOpcode::LUI => Ok(RvInstr::Lui(self.rd(), self.uimm())),
            RvOpcode::AUIPC => Ok(RvInstr::Auipc(self.rd(), self.uimm())),
            RvOpcode::BRANCH => {
                match (RvBranchOp::from_funct3(self.f3()), self.simm()) {
                    (Some(br_op), Some(imm)) => Ok(
                        RvInstr::Branch(self.rs1(), self.rs2(), imm, br_op),
                    ),
                    _ => Err(DecodeError::ReservedFunct),
                }
            },
            RvOpcode::JALR => {
                match self.simm() {
                    Some(imm) if self.f3() == 0b000 => Ok(
                        RvInstr::Jalr(self.rd(), self.rs1(), imm),
                    ),
                    _ => Err(DecodeError::ReservedFunct),
                }
            },
            RvOpcode::MISC_MEM => {
                let f3 = self.f3();
                if f3 == 0b000 || f3 == 0b001 {
                    Ok(RvInstr::Fence)
                } else {
                    Err(DecodeError::ReservedFunct)
                }
            },
            RvOpcode::SYSTEM => self.system(),
            _ => Err(DecodeError::UndefinedOpcode),
        }
    }
}

/// The fields that tell `ecall` and `ebreak` from the rest of the system instructions.
proof fn lemma_system_fields(w: u32)
    ensures
        (w & 0x000f_ff80 != 0) == (bits(w, 19, 7) != 0),
        w >> 20 == bits(w, 31, 20),
{
    assert((w & 0x000f_ff80 != 0) == ((w / 0x80) % 0x2000 != 0) && w >> 20 == (w / 0x10_0000)
        % 0x1000) by (bit_vector);
}

} // verus!
