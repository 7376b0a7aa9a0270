//! The RV32I instruction set: encodings, decoded instructions and the decoder.

pub mod bits;
pub mod decode;
pub mod encoding;
pub mod instr;
pub mod opcode;
pub mod sample;

pub use self::decode::DecodeError;
pub use self::encoding::{RvEncoding, RvEncodingFormat};
pub use self::instr::{RvALUOp, RvBranchOp, RvInstr, RvReg, RvWidth};
pub use self::opcode::RvOpcode;
