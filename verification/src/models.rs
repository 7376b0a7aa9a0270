//! Models of the machine: its state, the meaning of its instructions, and the interpreter
//! that runs them.

pub mod access;
pub mod interp;
pub mod regs;
pub mod semantics;
