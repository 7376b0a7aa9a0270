//! Loads and stores of the three widths, as instructions make them.

use super::semantics::{lemma_casts, lemma_low_parts, loaded, stored};
use crate::mem::{in_bounds, Memory};
use crate::rv32::encoding::sext32;
use crate::rv32::RvWidth;
use vstd::prelude::*;

verus! {

/// Whether an access of the given width at `addr` lies inside the memory.
pub fn mapped(mem: &Memory, addr: u32, width: RvWidth) -> (r: bool)
    ensures
        r == in_bounds(mem@, addr as int, width.bytes() as int),
{
    addr as u64 + width.size() as u64 <= mem.size() as u64
}

/// The value that a load of the given width at `addr` puts in its destination register:
/// sign-extended or, for an unsigned load, zero-extended.
pub fn load_value(mem: &Memory, addr: u32, width: RvWidth, unsigned: bool) -> (r: u32)
    requires
        in_bounds(mem@, addr as int, width.bytes() as int),
    ensures
        r == loaded(mem@, addr as int, width, unsigned),
{
    match width {
        RvWidth::Byte => {
            let b = mem.load8(addr as usize);
            if unsigned {
                b as u32
            } else {
                let v = sext32(b as u32, 8);
                proof {
                    lemma_casts(0, v);
                }
                v as u32
            }
        },
        RvWidth::Half => {
            let h = mem.load16(addr as usize);
            if unsigned {
                h as u32
            } else {
                let v = sext32(h as u32, 16);
                proof {
                    lemma_casts(0, v);
                }
                v as u32
            }
        },
        RvWidth::Word => mem.load32(addr as usize),
    }
}

/// Stores the low byte, the low halfword or all of `val` at `addr`.
pub fn store_value(mem: &mut Memory, addr: u32, width: RvWidth, val: u32)
    requires
        in_bounds(old(mem)@, addr as int, width.bytes() as int),
    ensures
        final(mem)@ == stored(old(mem)@, addr as int, width, val),
{
    proof {
        lemma_low_parts(val);
    }
    match width {
        RvWidth::Byte => mem.store8(addr as usize, #[verifier::truncate] (val as u8)),
        RvWidth::Half => mem.store16(addr as usize, #[verifier::truncate] (val as u16)),
        RvWidth::Word => mem.store32(addr as usize, val),
    }
}

} // verus!
