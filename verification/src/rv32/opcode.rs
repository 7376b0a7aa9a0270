//! Major opcodes.

use vstd::prelude::*;

verus! {

/// The major opcode of a 32-bit instruction: bits [6:2] of the word.
#[allow(non_camel_case_types)]
#[derive(Clone, Copy, Debug, PartialEq, Eq, Structural)]
pub enum RvOpcode {
    /// lb, lh, lw, lbu, lhu
    LOAD,
    LOAD_FP,
    CUSTOM_0,
    /// fence, fence.i
    MISC_MEM,
    /// addi, slti, sltiu, xori, ori, andi, slli, srli, srai
    OP_IMM,
    AUIPC,
    OP_IMM_32,
    /// sb, sh, sw
    STORE,
    STORE_FP,
    CUSTOM_1,
    AMO,
    /// add, sub, sll, slt, sltu, xor, srl, sra, or, and
    OP,
    LUI,
    OP_32,
    MADD,
    MSUB,
    NMSUB,
    NMADD,
    OP_FP,
    RES_0,
    CUSTOM_2,
    /// beq, bne, blt, bge, bltu, bgeu
    BRANCH,
    JALR,
    RES_1,
    JAL,
    /// ecall, ebreak
    SYSTEM,
    RES_2,
    CUSTOM_3,
}

impl RvOpcode {
    /// The five bits that stand for this opcode.
    pub open spec fn code(self) -> u32 {
        match self {
            RvOpcode::LOAD => 0b00000,
            RvOpcode::LOAD_FP => 0b00001,
            RvOpcode::CUSTOM_0 => 0b00010,
            RvOpcode::MISC_MEM => 0b00011,
            RvOpcode::OP_IMM => 0b00100,
            RvOpcode::AUIPC => 0b00101,
            RvOpcode::OP_IMM_32 => 0b00110,
            RvOpcode::STORE => 0b01000,
            RvOpcode::STORE_FP => 0b01001,
            RvOpcode::CUSTOM_1 => 0b01010,
            RvOpcode::AMO => 0b01011,
            RvOpcode::OP => 0b01100,
            RvOpcode::LUI => 0b01101,
            RvOpcode::OP_32 => 0b01110,
            RvOpcode::MADD => 0b10000,
            RvOpcode::MSUB => 0b10001,
            RvOpcode::NMSUB => 0b10010,
            RvOpcode::NMADD => 0b10011,
            RvOpcode::OP_FP => 0b10100,
            RvOpcode::RES_0 => 0b10101,
            RvOpcode::CUSTOM_2 => 0b10110,
            RvOpcode::BRANCH => 0b11000,
            RvOpcode::JALR => 0b11001,
            RvOpcode::RES_1 => 0b11010,
            RvOpcode::JAL => 0b11011,
            RvOpcode::SYSTEM => 0b11100,
            RvOpcode::RES_2 => 0b11101,
            RvOpcode::CUSTOM_3 => 0b11110,
        }
    }

    /// The opcode that `x` stands for, if there is one.
    pub open spec fn of_code(x: int) -> Option<RvOpcode> {
        if x == 0b00000 {
            Some(RvOpcode::LOAD)
        } else if x == 0b00001 {
            Some(RvOpcode::LOAD_FP)
        } else if x == 0b00010 {
            Some(RvOpcode::CUSTOM_0)
        } else if x == 0b00011 {
            Some(RvOpcode::MISC_MEM)
        } else if x == 0b00100 {
            Some(RvOpcode::OP_IMM)
        } else if x == 0b00101 {
            Some(RvOpcode::AUIPC)
        } else if x == 0b00110 {
            Some(RvOpcode::OP_IMM_32)
        } else if x == 0b01000 {
            Some(RvOpcode::STORE)
        } else if x == 0b01001 {
            Some(RvOpcode::STORE_FP)
        } else if x == 0b01010 {
            Some(RvOpcode::CUSTOM_1)
        } else if x == 0b01011 {
            Some(RvOpcode::AMO)
        } else if x == 0b01100 {
            Some(RvOpcode::OP)
        } else if x == 0b01101 {
            Some(RvOpcode::LUI)
        } else if x == 0b01110 {
            Some(RvOpcode::OP_32)
        } else if x == 0b10000 {
            Some(RvOpcode::MADD)
        } else if x == 0b10001 {
            Some(RvOpcode::MSUB)
        } else if x == 0b10010 {
            Some(RvOpcode::NMSUB)
        } else if x == 0b10011 {
            Some(RvOpcode::NMADD)
        } else if x == 0b10100 {
            Some(RvOpcode::OP_FP)
        } else if x == 0b10101 {
            Some(RvOpcode::RES_0)
        } else if x == 0b10110 {
            Some(RvOpcode::CUSTOM_2)
        } else if x == 0b11000 {
            Some(RvOpcode::BRANCH)
        } else if x == 0b11001 {
            Some(RvOpcode::JALR)
        } else if x == 0b11010 {
            Some(RvOpcode::RES_1)
        } else if x == 0b11011 {
            Some(RvOpcode::JAL)
        } else if x == 0b11100 {
            Some(RvOpcode::SYSTEM)
        } else if x == 0b11101 {
            Some(RvOpcode::RES_2)
        } else if x == 0b11110 {
            Some(RvOpcode::CUSTOM_3)
        } else {
            None
        }
    }

    /// `of_code` inverts `code`, and names every number that some opcode has.
    pub proof fn lemma_code_roundtrip(op: RvOpcode, x: int)
        ensures
            Self::of_code(op.code() as int) == Some(op),
            Self::of_code(x) == Some(op) <==> x == op.code(),
            0 <= op.code() < 32,
    {
    }

    /// The opcode with the bits `x`; `None` for the four values that no 32-bit opcode has, and
    /// for every number that does not fit in five bits.
    pub fn from_bits(x: u32) -> (r: Option<RvOpcode>)
        ensures
            r == Self::of_code(x as int),
    {
        match x {
            0b00000 => Some(RvOpcode::LOAD),
            0b00001 => Some(RvOpcode::LOAD_FP),
            0b00010 => Some(RvOpcode::CUSTOM_0),
            0b00011 => Some(RvOpcode::MISC_MEM),
            0b00100 => Some(RvOpcode::OP_IMM),
            0b00101 => Some(RvOpcode::AUIPC),
            0b00110 => Some(RvOpcode::OP_IMM_32),
            0b01000 => Some(RvOpcode::STORE),
            0b01001 => Some(RvOpcode::STORE_FP),
            0b01010 => Some(RvOpcode::CUSTOM_1),
            0b01011 => Some(RvOpcode::AMO),
            0b01100 => Some(RvOpcode::OP),
            0b01101 => Some(RvOpcode::LUI),
            0b01110 => Some(RvOpcode::OP_32),
            0b10000 => Some(RvOpcode::MADD),
            0b10001 => Some(RvOpcode::MSUB),
            0b10010 => Some(RvOpcode::NMSUB),
            0b10011 => Some(RvOpcode::NMADD),
            0b10100 => Some(RvOpcode::OP_FP),
            0b10101 => Some(RvOpcode::RES_0),
            0b10110 => Some(RvOpcode::CUSTOM_2),
            0b11000 => Some(RvOpcode::BRANCH),
            0b11001 => Some(RvOpcode::JALR),
            0b11010 => Some(RvOpcode::RES_1),
            0b11011 => Some(RvOpcode::JAL),
            0b11100 => Some(RvOpcode::SYSTEM),
            0b11101 => Some(RvOpcode::RES_2),
            0b11110 => Some(RvOpcode::CUSTOM_3),
            _ => None,
        }
    }
}

} // verus!
