//! What the stages of a pipeline hand to one another, and the register file they share.

use crate::models::regs::write_reg;
use crate::models::semantics::alu;
use crate::rv32::{RvALUOp, RvWidth};
use vstd::prelude::*;

verus! {

/// Arithmetic/logical operations supported by the emulated machine.
#[derive(Clone, Copy, Debug, PartialEq, Eq, Structural)]
pub enum ALUOp {
    Add,
    Sub,
    And,
    Or,
    Xor,
    Sll,
    Srl,
    Sra,
    LtUnsigned,
    LtSigned,
}

impl ALUOp {
    /// The operation of the instruction set that this is.
    pub open spec fn rv(self) -> RvALUOp {
        match self {
            ALUOp::Add => RvALUOp::Add,
            ALUOp::Sub => RvALUOp::Sub,
            ALUOp::And => RvALUOp::And,
            ALUOp::Or => RvALUOp::Or,
            ALUOp::Xor => RvALUOp::Xor,
            ALUOp::Sll => RvALUOp::Sll,
            ALUOp::Srl => RvALUOp::Srl,
            ALUOp::Sra => RvALUOp::Sra,
            ALUOp::LtUnsigned => RvALUOp::Sltu,
            ALUOp::LtSigned => RvALUOp::Slt,
        }
    }

    /// The result of the operation on `x` and `y`.
    pub open spec fn eval(self, x: u32, y: u32) -> u32 {
        alu(x, y, self.rv())
    }

    /// The operation of the instruction set that this is.
    pub fn to_rv(&self) -> (r: RvALUOp)
        ensures
            r == self.rv(),
    {
        match self {
            ALUOp::Add => RvALUOp::Add,
            ALUOp::Sub => RvALUOp::Sub,
            ALUOp::And => RvALUOp::And,
            ALUOp::Or => RvALUOp::Or,
            ALUOp::Xor => RvALUOp::Xor,
            ALUOp::Sll => RvALUOp::Sll,
            ALUOp::Srl => RvALUOp::Srl,
            ALUOp::Sra => RvALUOp::Sra,
            ALUOp::LtUnsigned => RvALUOp::Sltu,
            ALUOp::LtSigned => RvALUOp::Slt,
        }
    }
}

/// Widths of memory access operations supported by the machine.
#[derive(Clone, Copy, Debug, PartialEq, Eq, Structural)]
pub enum Width {
    Byte,
    Half,
    Word,
}

impl Width {
    /// The width of the instruction set that this is.
    pub open spec fn rv(self) -> RvWidth {
        match self {
            Width::Byte => RvWidth::Byte,
            Width::Half => RvWidth::Half,
            Width::Word => RvWidth::Word,
        }
    }

    /// The width of the instruction set that this is.
    pub fn to_rv(&self) -> (r: RvWidth)
        ensures
            r == self.rv(),
    {
        match self {
            Width::Byte => RvWidth::Byte,
            Width::Half => RvWidth::Half,
            Width::Word => RvWidth::Word,
        }
    }
}

/// Distinct types of instructions supported by the machine, their source operands already
/// read from the register file.
#[derive(Clone, Copy, Debug, PartialEq, Eq, Structural)]
pub enum Op {
    /// ALU operation (rD, x_value, y_value, operation)
    Alu(usize, u32, u32, ALUOp),
    /// Load operation (rD, addr, offset, width)
    Load(usize, u32, i32, Width),
    /// Store operation (value, addr, offset, width)
    Store(u32, u32, i32, Width),
}

/// Token for an effect on the state of the machine.
#[derive(Clone, Copy, Debug, PartialEq, Eq, Structural)]
pub enum Effect {
    /// Empty effect (no-op)
    Nop,
    /// Write an architectural register (rD, value).
    RegWrite(usize, u32),
    /// Load from memory to an architectural register (rD, addr, width).
    MemLoad(usize, u32, Width),
    /// Store a value to memory (value, addr, width).
    MemStore(u32, u32, Width),
}

/// An element in the instruction stream.
#[derive(Clone, Copy, Debug, PartialEq, Eq, Structural)]
pub struct Instruction {
    pub id: usize,
    pub op: Op,
}

/// Implemented on some union type that represents an ALU operation
/// (as defined in some target instruction set).
pub trait FrontendALUOp {
    /// The operation of the machine that stands for this one.
    spec fn alu_op(&self) -> ALUOp;

    fn to_alu_op(&self) -> (r: ALUOp)
        ensures
            r == self.alu_op(),
    ;
}

/// Implemented on some union type that represents the width of a memory
/// access (as defined in some target instruction set).
pub trait FrontendAccessWidth {
    /// The width of the machine that stands for this one.
    spec fn width(&self) -> Width;

    fn to_width(&self) -> (r: Width)
        ensures
            r == self.width(),
    ;
}

impl FrontendAccessWidth for RvWidth {
    open spec fn width(&self) -> Width {
        match self {
            RvWidth::Byte => Width::Byte,
            RvWidth::Half => Width::Half,
            RvWidth::Word => Width::Word,
        }
    }

    fn to_width(&self) -> (r: Width) {
        match self {
            RvWidth::Byte => Width::Byte,
            RvWidth::Half => Width::Half,
            RvWidth::Word => Width::Word,
        }
    }
}

impl FrontendALUOp for RvALUOp {
    open spec fn alu_op(&self) -> ALUOp {
        match self {
            RvALUOp::Add => ALUOp::Add,
            RvALUOp::Sub => ALUOp::Sub,
            RvALUOp::Xor => ALUOp::Xor,
            RvALUOp::Or => ALUOp::Or,
            RvALUOp::And => ALUOp::And,
            RvALUOp::Slt => ALUOp::LtSigned,
            RvALUOp::Sltu => ALUOp::LtUnsigned,
            RvALUOp::Sll => ALUOp::Sll,
            RvALUOp::Srl => ALUOp::Srl,
            RvALUOp::Sra => ALUOp::Sra,
        }
    }

    fn to_alu_op(&self) -> (r: ALUOp) {
        match self {
            RvALUOp::Add => ALUOp::Add,
            RvALUOp::Sub => ALUOp::Sub,
            RvALUOp::Xor => ALUOp::Xor,
            RvALUOp::Or => ALUOp::Or,
            RvALUOp::And => ALUOp::And,
            RvALUOp::Slt => ALUOp::LtSigned,
            RvALUOp::Sltu => ALUOp::LtUnsigned,
            RvALUOp::Sll => ALUOp::Sll,
            RvALUOp::Srl => ALUOp::Srl,
            RvALUOp::Sra => ALUOp::Sra,
        }
    }
}

/// The operations and widths of the instruction set and those of the machine stand for
/// one another.
pub proof fn lemma_frontend(op: RvALUOp, width: RvWidth)
    ensures
        op.alu_op().rv() == op,
        width.width().rv() == width,
{
}

/// A stage of a pipeline that can be held up.
pub trait SimplePipelineStage {
    type In;

    type Out;

    /// Transform inputs to outputs.
    fn execute(&mut self, i: Self::In) -> Self::Out;

    fn stall(&mut self);

    fn unstall(&mut self);
}

/// The contents of a register file of `size` registers made from `init`: register 0 holds
/// zero, every other register its initial value, or zero where none is given.
pub open spec fn fresh_registers(size: nat, init: Option<Seq<u32>>) -> Seq<u32> {
    Seq::new(
        size,
        |i: int|
            if i == 0 {
                0u32
            } else {
                match init {
                    Some(values) => values[i],
                    None => 0u32,
                }
            },
    )
}

/// Architectural register file. Register 0 reads as zero whatever is written to it.
#[derive(Debug)]
pub struct RegisterFile {
    data: Vec<u32>,
}

impl View for RegisterFile {
    type V = Seq<u32>;

    closed spec fn view(&self) -> Seq<u32> {
        Seq::new(
            self.data@.len(),
            |i: int|
                if i == 0 {
                    0u32
                } else {
                    self.data@[i]
                },
        )
    }
}

impl RegisterFile {
    /// Register 0, where there is one, holds zero.
    pub proof fn lemma_zero(&self)
        ensures
            self@.len() > 0 ==> self@[0] == 0,
    {
    }

    /// A register file of `size` registers, which start with the values of `init` where it
    /// is given.
    pub fn new(size: usize, init: Option<&[u32]>) -> (r: Self)
        requires
            init matches Some(values) ==> values@.len() == size,
        ensures
            r@ == fresh_registers(
                size as nat,
                match init {
                    Some(values) => Some(values@),
                    None => None,
                },
            ),
    {
        let mut res = Self { data: vec![0u32; size] };
        if let Some(values) = init {
            let mut i: usize = 0;
            while i < size
                invariant
                    i <= size,
                    values@.len() == size,
                    res.data@.len() == size,
                    forall|j: int| 0 <= j < i ==> res.data@[j] == values@[j],
                    forall|j: int| i <= j < size ==> res.data@[j] == 0,
                decreases size - i,
            {
                res.data[i] = values[i];
                i = i + 1;
            }
        }
        assert(res@ =~= fresh_registers(
            size as nat,
            match init {
                Some(values) => Some(values@),
                None => None,
            },
        ));
        res
    }

    /// The number of registers.
    pub fn size(&self) -> (r: usize)
        ensures
            r == self@.len(),
    {
        self.data.len()
    }

    /// The value of register `idx`.
    pub fn read(&self, idx: usize) -> (r: u32)
        requires
            idx < self@.len(),
        ensures
            r == self@[idx as int],
    {
        if idx == 0 {
            0
        } else {
            self.data[idx]
        }
    }

    /// Writes `val` to register `idx`, unless that is register 0.
    pub fn write(&mut self, idx: usize, val: u32)
        requires
            idx < old(self)@.len(),
        ensures
            final(self)@ == write_reg(old(self)@, idx as int, val),
    {
        if idx != 0 {
            self.data[idx] = val;
        }
        assert(self@ =~= write_reg(old(self)@, idx as int, val));
    }
}

} // verus!
