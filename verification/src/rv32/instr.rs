//! Decoded instructions and the operation tags they carry.

use vstd::prelude::*;

verus! {

/// The name of a general-purpose register. Names below 32 are valid; name 0 is the zero
/// register.
#[derive(Clone, Copy, Debug, PartialEq, Eq, Structural)]
pub struct RvReg(pub usize);

impl RvReg {
    /// Whether this names one of the 32 registers.
    pub open spec fn wf(self) -> bool {
        self.0 < 32
    }
}

/// The width of a memory access.
#[derive(Clone, Copy, Debug, PartialEq, Eq, Structural)]
pub enum RvWidth {
    Byte,
    Half,
    Word,
}

impl RvWidth {
    /// The number of bytes that an access of this width touches.
    pub open spec fn bytes(self) -> nat {
        match self {
            RvWidth::Byte => 1,
            RvWidth::Half => 2,
            RvWidth::Word => 4,
        }
    }

    /// The width that the low two bits of `funct3` select: 0 a byte, 1 a halfword, 2 a word.
    pub open spec fn of_funct3(x: int) -> Option<RvWidth> {
        if x == 0b000 {
            Some(RvWidth::Byte)
        } else if x == 0b001 {
            Some(RvWidth::Half)
        } else if x == 0b010 {
            Some(RvWidth::Word)
        } else {
            None
        }
    }

    pub fn from_funct3(x: u32) -> (r: Option<RvWidth>)
        ensures
            r == Self::of_funct3(x as int),
    {
        match x {
            0b000 => Some(RvWidth::Byte),
            0b001 => Some(RvWidth::Half),
            0b010 => Some(RvWidth::Word),
            _ => None,
        }
    }

    /// The size of an access in bytes.
    pub fn size(&self) -> (r: usize)
        ensures
            r == self.bytes(),
    {
        match self {
            RvWidth::Byte => 1,
            RvWidth::Half => 2,
            RvWidth::Word => 4,
        }
    }
}

/// An arithmetic or logical operation.
#[derive(Clone, Copy, Debug, PartialEq, Eq, Structural)]
pub enum RvALUOp {
    Add,
    Sub,
    Sll,
    Slt,
    Sltu,
    Xor,
    Srl,
    Sra,
    Or,
    And,
}

impl RvALUOp {
    /// The operation that `funct3` and `funct7` select in a register-register instruction.
    pub open spec fn of_funct(f3: int, f7: int) -> Option<RvALUOp> {
        if f3 == 0b000 && f7 == 0b0000000 {
            Some(RvALUOp::Add)
        } else if f3 == 0b000 && f7 == 0b0100000 {
            Some(RvALUOp::Sub)
        } else if f3 == 0b001 && f7 == 0b0000000 {
            Some(RvALUOp::Sll)
        } else if f3 == 0b010 && f7 == 0b0000000 {
            Some(RvALUOp::Slt)
        } else if f3 == 0b011 && f7 == 0b0000000 {
            Some(RvALUOp::Sltu)
        } else if f3 == 0b100 && f7 == 0b0000000 {
            Some(RvALUOp::Xor)
        } else if f3 == 0b101 && f7 == 0b0000000 {
            Some(RvALUOp::Srl)
        } else if f3 == 0b101 && f7 == 0b0100000 {
            Some(RvALUOp::Sra)
        } else if f3 == 0b110 && f7 == 0b0000000 {
            Some(RvALUOp::Or)
        } else if f3 == 0b111 && f7 == 0b0000000 {
            Some(RvALUOp::And)
        } else {
            None
        }
    }

    /// Whether this is one of the three shifts.
    pub open spec fn is_shift(self) -> bool {
        self == RvALUOp::Sll || self == RvALUOp::Srl || self == RvALUOp::Sra
    }

    pub fn from_funct(f3: u32, f7: u32) -> (r: Option<RvALUOp>)
        ensures
            r == Self::of_funct(f3 as int, f7 as int),
    {
        match (f3, f7) {
            (0b000, 0b0000000) => Some(RvALUOp::Add),
            (0b000, 0b0100000) => Some(RvALUOp::Sub),
            (0b001, 0b0000000) => Some(RvALUOp::Sll),
            (0b010, 0b0000000) => Some(RvALUOp::Slt),
            (0b011, 0b0000000) => Some(RvALUOp::Sltu),
            (0b100, 0b0000000) => Some(RvALUOp::Xor),
            (0b101, 0b0000000) => Some(RvALUOp::Srl),
            (0b101, 0b0100000) => Some(RvALUOp::Sra),
            (0b110, 0b0000000) => Some(RvALUOp::Or),
            (0b111, 0b0000000) => Some(RvALUOp::And),
            _ => None,
        }
    }
}

/// The relation that a conditional branch tests.
#[derive(Clone, Copy, Debug, PartialEq, Eq, Structural)]
pub enum RvBranchOp {
    Eq,
    Ne,
    Lt,
    Ge,
    Ltu,
    Geu,
}

impl RvBranchOp {
    /// The relation that `funct3` selects; 010 and 011 select none.
    pub open spec fn of_funct3(x: int) -> Option<RvBranchOp> {
        if x == 0b000 {
            Some(RvBranchOp::Eq)
        } else if x == 0b001 {
            Some(RvBranchOp::Ne)
        } else if x == 0b100 {
            Some(RvBranchOp::Lt)
        } else if x == 0b101 {
            Some(RvBranchOp::Ge)
        } else if x == 0b110 {
            Some(RvBranchOp::Ltu)
        } else if x == 0b111 {
            Some(RvBranchOp::Geu)
        } else {
            None
        }
    }

    pub fn from_funct3(x: u32) -> (r: Option<RvBranchOp>)
        ensures
            r == Self::of_funct3(x as int),
    {
        match x {
            0b000 => Some(RvBranchOp::Eq),
            0b001 => Some(RvBranchOp::Ne),
            0b100 => Some(RvBranchOp::Lt),
            0b101 => Some(RvBranchOp::Ge),
            0b110 => Some(RvBranchOp::Ltu),
            0b111 => Some(RvBranchOp::Geu),
            _ => None,
        }
    }
}

/// A decoded instruction.
#[derive(Clone, Copy, Debug, PartialEq, Eq, Structural)]
pub enum RvInstr {
    /// ALU operation on two registers: (rd, rs1, rs2, op)
    Op(RvReg, RvReg, RvReg, RvALUOp),
    /// ALU operation with an immediate: (rd, rs1, imm, op). For a shift the immediate is the
    /// shift amount.
    OpImm(RvReg, RvReg, i32, RvALUOp),
    /// Sign-extending memory load: (rd, rs1, imm, width)
    Load(RvReg, RvReg, i32, RvWidth),
    /// Zero-extending memory load: (rd, rs1, imm, width)
    LoadU(RvReg, RvReg, i32, RvWidth),
    /// Jump-and-link register: (rd, rs1, imm)
    Jalr(RvReg, RvReg, i32),
    /// Load upper immediate: (rd, uimm), the immediate already in bits [31:12]
    Lui(RvReg, u32),
    /// Add upper immediate to pc: (rd, uimm), the immediate already in bits [31:12]
    Auipc(RvReg, u32),
    /// Memory store: (rs1, rs2, imm, width)
    Store(RvReg, RvReg, i32, RvWidth),
    /// Jump-and-link: (rd, imm)
    Jal(RvReg, i32),
    /// Conditional branch: (rs1, rs2, imm, op)
    Branch(RvReg, RvReg, i32, RvBranchOp),
    /// Memory ordering fence; nothing to do on a single in-order hart
    Fence,
    /// Environment call
    Ecall,
    /// Breakpoint
    Ebreak,
}

impl RvInstr {
    /// Every register that the instruction names is one of the 32.
    pub open spec fn wf(self) -> bool {
        match self {
            RvInstr::Op(rd, rs1, rs2, _) => rd.wf() && rs1.wf() && rs2.wf(),
            RvInstr::OpImm(rd, rs1, _, _) => rd.wf() && rs1.wf(),
            RvInstr::Load(rd, rs1, _, _) => rd.wf() && rs1.wf(),
            RvInstr::LoadU(rd, rs1, _, _) => rd.wf() && rs1.wf(),
            RvInstr::Jalr(rd, rs1, _) => rd.wf() && rs1.wf(),
            RvInstr::Lui(rd, _) => rd.wf(),
            RvInstr::Auipc(rd, _) => rd.wf(),
            RvInstr::Store(rs1, rs2, _, _) => rs1.wf() && rs2.wf(),
            RvInstr::Jal(rd, _) => rd.wf(),
            RvInstr::Branch(rs1, rs2, _, _) => rs1.wf() && rs2.wf(),
            RvInstr::Fence => true,
            RvInstr::Ecall => true,
            RvInstr::Ebreak => true,
        }
    }
}

} // verus!
