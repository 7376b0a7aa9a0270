//! The load/store unit.

use super::storage::Storage;
use super::Operand;
use crate::mem::{in_bounds, load_u16, load_u32, load_u8, store_u16, store_u32, store_u8, Memory};
use crate::models::semantics::lemma_low_parts;
use vstd::prelude::*;

verus! {

/// What a load/store instruction does.
#[derive(Clone, Copy, Debug, PartialEq, Eq, Structural)]
pub enum LSUOp {
    /// Store the value of the operand.
    Store(Operand),
    Load,
}

/// The width of an access.
#[derive(Clone, Copy, Debug, PartialEq, Eq, Structural)]
pub enum LSUOpWidth {
    Byte,
    Half,
    Word,
}

impl LSUOpWidth {
    /// The number of bytes of an access of this width.
    pub open spec fn bytes(self) -> int {
        match self {
            LSUOpWidth::Byte => 1,
            LSUOpWidth::Half => 2,
            LSUOpWidth::Word => 4,
        }
    }
}

/// A load/store instruction.
#[derive(Clone, Copy, Debug, PartialEq, Eq, Structural)]
pub struct LSUInst {
    pub op: LSUOp,
    pub addr: Operand,
    pub width: LSUOpWidth,
}

/// The address that the instruction accesses, where it accesses memory at all: a load
/// whose address has its value, or a store whose address and data both have theirs.
pub open spec fn lsu_access(inst: LSUInst, s: &Storage) -> Option<u32> {
    match (s.operand_value(inst.addr), inst.op) {
        (Some(addr), LSUOp::Load) => Some(addr),
        (Some(addr), LSUOp::Store(data)) => if s.operand_value(data) is Some {
            Some(addr)
        } else {
            None
        },
        _ => None,
    }
}

/// What the instruction returns: the zero-extended value for a load, 0 for a store, and
/// `None` where an operand has no value yet.
pub open spec fn lsu_result(inst: LSUInst, s: &Storage, m: Seq<u8>) -> Option<u32> {
    match (lsu_access(inst, s), inst.op) {
        (Some(addr), LSUOp::Load) => Some(
            match inst.width {
                LSUOpWidth::Byte => load_u8(m, addr as int) as u32,
                LSUOpWidth::Half => load_u16(m, addr as int) as u32,
                LSUOpWidth::Word => load_u32(m, addr as int),
            },
        ),
        (Some(addr), LSUOp::Store(_)) => Some(0),
        _ => None,
    }
}

/// The memory after the instruction: a store whose operands have their values writes the
/// low byte, halfword or all of its data; anything else leaves memory alone.
pub open spec fn lsu_memory(inst: LSUInst, s: &Storage, m: Seq<u8>) -> Seq<u8> {
    match (lsu_access(inst, s), inst.op) {
        (Some(addr), LSUOp::Store(data)) => {
            let val = s.operand_value(data)->Some_0;
            match inst.width {
                LSUOpWidth::Byte => store_u8(m, addr as int, (val % 0x100) as u8),
                LSUOpWidth::Half => store_u16(m, addr as int, (val % 0x1_0000) as u16),
                LSUOpWidth::Word => store_u32(m, addr as int, val),
            }
        },
        _ => m,
    }
}

/// Perform a load/store instruction.
///
/// Using a reference to some [Storage], try to resolve the concrete values of the operands;
/// then load from memory, or store to it.
pub fn exec_lsu_inst(inst: LSUInst, s: &Storage, m: &mut Memory) -> (r: Option<u32>)
    requires
        s.wf(),
        s.has(inst.addr),
        inst.op matches LSUOp::Store(data) ==> s.has(data),
        lsu_access(inst, s) matches Some(addr) ==> in_bounds(
            old(m)@,
            addr as int,
            inst.width.bytes(),
        ),
    ensures
        r == lsu_result(inst, s, old(m)@),
        final(m)@ == lsu_memory(inst, s, old(m)@),
{
    if let Some(addr) = s.resolve_operand(inst.addr) {
        let addr = addr as usize;
        match inst.op {
            LSUOp::Load => {
                match inst.width {
                    LSUOpWidth::Byte => Some(m.load8(addr) as u32),
                    LSUOpWidth::Half => Some(m.load16(addr) as u32),
                    LSUOpWidth::Word => Some(m.load32(addr)),
                }
            },
            LSUOp::Store(data) => {
                if let Some(data) = s.resolve_operand(data) {
                    proof {
                        lemma_low_parts(data);
                    }
                    match inst.width {
                        LSUOpWidth::Byte => m.store8(addr, #[verifier::truncate] (data as u8)),
                        LSUOpWidth::Half => m.store16(addr, #[verifier::truncate] (data as u16)),
                        LSUOpWidth::Word => m.store32(addr, data),
                    }
                    Some(0)
                } else {
                    None
                }
            },
        }
    } else {
        None
    }
}

} // verus!
