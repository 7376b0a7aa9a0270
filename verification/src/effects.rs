//! Effects on the visible state of a machine: an intermediate form in which a program is a
//! graph of basic blocks.

use vstd::prelude::*;

verus! {

#[derive(Clone, Copy, Debug, PartialEq, Eq, Structural)]
pub enum UnaryRelation {
    Id,
    NotId,
}

#[derive(Clone, Copy, Debug, PartialEq, Eq, Structural)]
pub enum BinaryRelation {
    Eq,
    Ne,
    Lt,
    Gt,
}

#[derive(Clone, Copy, Debug, PartialEq, Eq, Structural)]
pub enum ArithOp {
    Add,
    Sub,
    Mul,
    Div,
}

#[derive(Clone, Copy, Debug, PartialEq, Eq, Structural)]
pub enum LogicOp {
    And,
    Or,
    Xor,
    Ror,
    Rol,
    Lsl,
    Lsr,
    Asr,
}

#[derive(Clone, Copy, Debug, PartialEq, Eq, Structural)]
pub enum Operation {
    Cmp1 { x: VirtReg, op: UnaryRelation },
    Move { x: VirtReg, y: VirtReg },
    Cmp2 { x: VirtReg, y: VirtReg, op: BinaryRelation },
    Arith { x: VirtReg, y: VirtReg, op: ArithOp },
    Logic { x: VirtReg, y: VirtReg, op: LogicOp },
}

/// An effect on the [visible] state of a machine.
#[derive(Clone, Copy, Debug, PartialEq, Eq, Structural)]
pub enum DataEffect {
    /// Set some variable to a particular value.
    Id { dst: VirtReg, val: u32 },
    /// Set some variable to the result of an operation.
    Op { dst: VirtReg, op: Operation },
}

/// The name of a particular [DataEffect] within some [BasicBlock].
#[derive(Clone, Copy, Debug, PartialEq, Eq, Structural)]
pub struct VirtReg(pub usize);

impl VirtReg {
    /// The position of the effect in its block.
    pub fn get(&self) -> (r: usize)
        ensures
            r == self.0,
    {
        self.0
    }
}

/// The name of a particular set of data effects (a [BasicBlock]).
#[derive(Clone, Copy, Debug, PartialEq, Eq, Structural)]
pub struct BasicBlockId(pub usize);

/// A control effect on the machine; a change in the set of the next possible
/// data effects on the machine. Control effects *control* the order (in the
/// time domain) in which data effects occur on the machine.
///
/// Control effects determine *whether or not* some relation holds (or some
/// condition is satisfied), and then cause the machine to undergo some
/// set of data effects.
#[derive(Clone, Copy, Debug, PartialEq, Eq, Structural)]
pub enum ControlEffect {
    /// Halt execution of the machine.
    Halt,
    /// Perform a particular set of data effects (a [BasicBlock]).
    BranchUncond { eff: BasicBlockId },
    /// Perform one of two sets of data effects, depending on whether or not
    /// some unary relation holds.
    Branch1Cond { eff1: BasicBlockId, eff2: BasicBlockId, data: VirtReg, op: UnaryRelation },
    /// Perform one of two sets of data effects, depending on whether or not
    /// some binary relation holds.
    Branch2Cond {
        eff1: BasicBlockId,
        eff2: BasicBlockId,
        data1: VirtReg,
        data2: VirtReg,
        op: BinaryRelation,
    },
}

/// An atomic set of data effects on a machine.
pub struct BasicBlock {
    pub eff: Vec<DataEffect>,
    pub ctrl: ControlEffect,
}

impl Default for BasicBlock {
    /// The empty block, which halts the machine.
    fn default() -> (r: Self)
        ensures
            r.eff@ == Seq::<DataEffect>::empty(),
            r.ctrl == ControlEffect::Halt,
    {
        Self { eff: Vec::new(), ctrl: ControlEffect::Halt }
    }
}

} // verus!
