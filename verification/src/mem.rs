//! Flat, byte-addressable, little-endian memory.

use crate::entropy::random_byte;
use vstd::prelude::*;

verus! {

/// Whether the `n` bytes at `addr` lie inside a memory with the contents `m`.
pub open spec fn in_bounds(m: Seq<u8>, addr: int, n: int) -> bool {
    0 <= addr && addr + n <= m.len()
}

/// The byte at `addr`.
pub open spec fn load_u8(m: Seq<u8>, addr: int) -> u8 {
    m[addr]
}

/// The halfword whose low byte is at `addr` and whose high byte is at `addr + 1`.
pub open spec fn load_u16(m: Seq<u8>, addr: int) -> u16 {
    (m[addr] as int + m[addr + 1] as int * 0x100) as u16
}

/// The word whose lowest byte is at `addr` and whose highest byte is at `addr + 3`.
pub open spec fn load_u32(m: Seq<u8>, addr: int) -> u32 {
    (m[addr] as int + m[addr + 1] as int * 0x100 + m[addr + 2] as int * 0x1_0000 + m[addr
        + 3] as int * 0x100_0000) as u32
}

/// Byte `i` of `v`, counting from the least significant.
pub open spec fn byte_of(v: int, i: int) -> u8 {
    if i == 0 {
        (v % 0x100) as u8
    } else if i == 1 {
        ((v / 0x100) % 0x100) as u8
    } else if i == 2 {
        ((v / 0x1_0000) % 0x100) as u8
    } else {
        ((v / 0x100_0000) % 0x100) as u8
    }
}

/// The contents after the byte `v` is stored at `addr`.
pub open spec fn store_u8(m: Seq<u8>, addr: int, v: u8) -> Seq<u8> {
    m.update(addr, v)
}

/// The contents after the halfword `v` is stored at `addr`, low byte first.
pub open spec fn store_u16(m: Seq<u8>, addr: int, v: u16) -> Seq<u8> {
    m.update(addr, byte_of(v as int, 0)).update(addr + 1, byte_of(v as int, 1))
}

/// The contents after the word `v` is stored at `addr`, lowest byte first.
pub open spec fn store_u32(m: Seq<u8>, addr: int, v: u32) -> Seq<u8> {
    m.update(addr, byte_of(v as int, 0)).update(addr + 1, byte_of(v as int, 1)).update(
        addr + 2,
        byte_of(v as int, 2),
    ).update(addr + 3, byte_of(v as int, 3))
}

/// The contents after `src` is copied to `off` and the bytes that follow it.
pub open spec fn splice(m: Seq<u8>, off: int, src: Seq<u8>) -> Seq<u8> {
    Seq::new(
        m.len(),
        |i: int|
            if off <= i < off + src.len() {
                src[i - off]
            } else {
                m[i]
            },
    )
}

/// What is stored is what is loaded back, at each of the three widths.
pub proof fn lemma_store_load(m: Seq<u8>, addr: int, b: u8, h: u16, w: u32)
    ensures
        in_bounds(m, addr, 1) ==> load_u8(store_u8(m, addr, b), addr) == b,
        in_bounds(m, addr, 2) ==> load_u16(store_u16(m, addr, h), addr) == h,
        in_bounds(m, addr, 4) ==> load_u32(store_u32(m, addr, w), addr) == w,
{
}

/// A stored word lies in memory lowest byte first, a stored halfword low byte first.
pub proof fn lemma_little_endian(m: Seq<u8>, addr: int, h: u16, w: u32, i: int)
    ensures
        in_bounds(m, addr, 2) && 0 <= i < 2 ==> load_u8(store_u16(m, addr, h), addr + i)
            == byte_of(h as int, i),
        in_bounds(m, addr, 4) && 0 <= i < 4 ==> load_u8(store_u32(m, addr, w), addr + i)
            == byte_of(w as int, i),
{
}

/// A store keeps the size of the memory and every byte outside the place it writes.
pub proof fn lemma_store_frame(m: Seq<u8>, addr: int, b: u8, h: u16, w: u32, other: int)
    ensures
        in_bounds(m, addr, 1) ==> store_u8(m, addr, b).len() == m.len(),
        in_bounds(m, addr, 2) ==> store_u16(m, addr, h).len() == m.len(),
        in_bounds(m, addr, 4) ==> store_u32(m, addr, w).len() == m.len(),
        in_bounds(m, addr, 1) && 0 <= other < m.len() && other != addr ==> store_u8(
            m,
            addr,
            b,
        )[other] == m[other],
        in_bounds(m, addr, 2) && 0 <= other < m.len() && !(addr <= other < addr + 2)
            ==> store_u16(m, addr, h)[other] == m[other],
        in_bounds(m, addr, 4) && 0 <= other < m.len() && !(addr <= other < addr + 4)
            ==> store_u32(m, addr, w)[other] == m[other],
{
}

/// The bytes of a halfword or word, as shifts and truncating casts compute them.
proof fn lemma_split(h: u16, w: u32)
    ensures
        (h >> 8) < 0x100,
        (w >> 24) < 0x100,
        h as u8 == byte_of(h as int, 0),
        (h >> 8) as u8 == byte_of(h as int, 1),
        w as u8 == byte_of(w as int, 0),
        (w >> 8) as u8 == byte_of(w as int, 1),
        (w >> 16) as u8 == byte_of(w as int, 2),
        (w >> 24) as u8 == byte_of(w as int, 3),
{
    assert((h >> 8) < 0x100 && (w >> 24) < 0x100 && h as u8 == (h % 0x100) as u8 && (h >> 8) as u8 == ((h / 0x100) % 0x100) as u8 && w as u8
        == (w % 0x100) as u8 && (w >> 8) as u8 == ((w / 0x100) % 0x100) as u8 && (w >> 16) as u8
        == ((w / 0x1_0000) % 0x100) as u8 && (w >> 24) as u8 == ((w / 0x100_0000) % 0x100) as u8)
        by (bit_vector);
}

/// A halfword or word put together from its bytes, as shifts and ors compute it.
proof fn lemma_join(b0: u8, b1: u8, b2: u8, b3: u8)
    ensures
        (b0 as u16) | ((b1 as u16) << 8) == b0 as int + b1 as int * 0x100,
        (b0 as u32) | ((b1 as u32) << 8) | ((b2 as u32) << 16) | ((b3 as u32) << 24) == b0 as int
            + b1 as int * 0x100 + b2 as int * 0x1_0000 + b3 as int * 0x100_0000,
{
    assert((b0 as u16) | ((b1 as u16) << 8) == b0 as int + b1 as int * 0x100 && (b0 as u32) | ((
    b1 as u32) << 8) | ((b2 as u32) << 16) | ((b3 as u32) << 24) == b0 as int + b1 as int * 0x100
        + b2 as int * 0x1_0000 + b3 as int * 0x100_0000) by (bit_vector);
}

/// An address-translation unit. The machine runs untranslated, so it holds nothing.
pub struct Mmu {}

impl Mmu {
    pub fn new() -> (r: Self)
        ensures
            r == (Mmu {  }),
    {
        Mmu {  }
    }
}

/// A simple emulated memory device: a fixed number of bytes, addressed from 0.
pub struct Memory {
    pub data: Vec<u8>,
}

impl View for Memory {
    type V = Seq<u8>;

    open spec fn view(&self) -> Seq<u8> {
        self.data@
    }
}

impl Memory {
    /// A memory of `size` zero bytes.
    pub fn new(size: usize) -> (r: Self)
        ensures
            r@.len() == size,
            forall|i: int| 0 <= i < size ==> r@[i] == 0,
    {
        Self { data: vec![0u8; size] }
    }

    /// The number of bytes.
    pub fn size(&self) -> (r: usize)
        ensures
            r == self@.len(),
    {
        self.data.len()
    }

    /// Copies `src` to `off` and the bytes that follow it.
    pub fn write(&mut self, off: usize, src: &[u8])
        requires
            in_bounds(old(self)@, off as int, src@.len() as int),
        ensures
            final(self)@ == splice(old(self)@, off as int, src@),
    {
        let n = src.len();
        let size = self.data.len();
        let mut i: usize = 0;
        while i < n
            invariant
                n == src@.len(),
                i <= n,
                off + n <= size,
                self.data@.len() == size,
                old(self).data@.len() == size,
                forall|j: int|
                    0 <= j < self.data@.len() ==> self.data@[j] == if off <= j < off + i {
                        src@[j - off]
                    } else {
                        old(self).data@[j]
                    },
            decreases n - i,
        {
            self.data[off + i] = src[i];
            i = i + 1;
        }
    }

    /// The word at `addr`, as an instruction fetch reads it.
    pub fn read32(&self, addr: usize) -> (r: u32)
        requires
            in_bounds(self@, addr as int, 4),
        ensures
            r == load_u32(self@, addr as int),
    {
        self.load32(addr)
    }

    /// The byte at `addr`.
    pub fn load8(&self, addr: usize) -> (r: u8)
        requires
            in_bounds(self@, addr as int, 1),
        ensures
            r == load_u8(self@, addr as int),
    {
        self.data[addr]
    }

    /// The little-endian halfword at `addr`.
    pub fn load16(&self, addr: usize) -> (r: u16)
        requires
            in_bounds(self@, addr as int, 2),
        ensures
            r == load_u16(self@, addr as int),
    {
        let size = self.data.len();
        assert(addr + 2 <= size);
        let b0 = self.data[addr];
        let b1 = self.data[addr + 1];
        proof {
            lemma_join(b0, b1, 0, 0);
        }
        (b0 as u16) | ((b1 as u16) << 8)
    }

    /// The little-endian word at `addr`.
    pub fn load32(&self, addr: usize) -> (r: u32)
        requires
            in_bounds(self@, addr as int, 4),
        ensures
            r == load_u32(self@, addr as int),
    {
        let size = self.data.len();
        assert(addr + 4 <= size);
        let b0 = self.data[addr];
        let b1 = self.data[addr + 1];
        let b2 = self.data[addr + 2];
        let b3 = self.data[addr + 3];
        proof {
            lemma_join(b0, b1, b2, b3);
        }
        (b0 as u32) | ((b1 as u32) << 8) | ((b2 as u32) << 16) | ((b3 as u32) << 24)
    }

    /// Stores a byte at `addr`.
    pub fn store8(&mut self, addr: usize, val: u8)
        requires
            in_bounds(old(self)@, addr as int, 1),
        ensures
            final(self)@ == store_u8(old(self)@, addr as int, val),
    {
        self.data[addr] = val;
    }

    /// Stores a halfword at `addr`, low byte first.
    pub fn store16(&mut self, addr: usize, val: u16)
        requires
            in_bounds(old(self)@, addr as int, 2),
        ensures
            final(self)@ == store_u16(old(self)@, addr as int, val),
    {
        let size = self.data.len();
        assert(addr + 2 <= size);
        proof {
            lemma_split(val, 0);
        }
        self.data[addr] = #[verifier::truncate] (val as u8);
        self.data[addr + 1] = (val >> 8) as u8;
    }

    /// Stores a word at `addr`, lowest byte first.
    pub fn store32(&mut self, addr: usize, val: u32)
        requires
            in_bounds(old(self)@, addr as int, 4),
        ensures
            final(self)@ == store_u32(old(self)@, addr as int, val),
    {
        let size = self.data.len();
        assert(addr + 4 <= size);
        proof {
            lemma_split(0, val);
        }
        self.data[addr] = #[verifier::truncate] (val as u8);
        self.data[addr + 1] = #[verifier::truncate] ((val >> 8) as u8);
        self.data[addr + 2] = #[verifier::truncate] ((val >> 16) as u8);
        self.data[addr + 3] = (val >> 24) as u8;
    }
}

/// The number of bytes of a data memory made by `DataMemory::new`.
pub const DATA_MEMORY_SIZE: usize = 0x0001_0000;

/// The memory device of the pipelined machine. It powers up holding arbitrary bytes.
pub struct DataMemory {
    pub mem: Memory,
}

impl View for DataMemory {
    type V = Seq<u8>;

    open spec fn view(&self) -> Seq<u8> {
        self.mem@
    }
}

impl DataMemory {
    /// A memory of 64 KiB, each byte drawn at random.
    pub fn new() -> (r: Self)
        ensures
            r@.len() == DATA_MEMORY_SIZE,
    {
        let mut data: Vec<u8> = Vec::new();
        let mut i: usize = 0;
        while i < DATA_MEMORY_SIZE
            invariant
                i <= DATA_MEMORY_SIZE,
                data@.len() == i,
            decreases DATA_MEMORY_SIZE - i,
        {
            data.push(random_byte());
            i = i + 1;
        }
        Self { mem: Memory { data } }
    }

    /// A data memory with the size and the contents of `mem`.
    pub fn from_memory(mem: Memory) -> (r: Self)
        ensures
            r@ == mem@,
    {
        Self { mem }
    }

    /// The number of bytes.
    pub fn size(&self) -> (r: usize)
        ensures
            r == self@.len(),
    {
        self.mem.size()
    }

    /// The byte at `addr`.
    pub fn load8(&self, addr: usize) -> (r: u8)
        requires
            in_bounds(self@, addr as int, 1),
        ensures
            r == load_u8(self@, addr as int),
    {
        self.mem.load8(addr)
    }

    /// The little-endian halfword at `addr`.
    pub fn load16(&self, addr: usize) -> (r: u16)
        requires
            in_bounds(self@, addr as int, 2),
        ensures
            r == load_u16(self@, addr as int),
    {
        self.mem.load16(addr)
    }

    /// The little-endian word at `addr`.
    pub fn load32(&self, addr: usize) -> (r: u32)
        requires
            in_bounds(self@, addr as int, 4),
        ensures
            r == load_u32(self@, addr as int),
    {
        self.mem.load32(addr)
    }

    /// Stores a byte at `addr`.
    pub fn store8(&mut self, addr: usize, val: u8)
        requires
            in_bounds(old(self)@, addr as int, 1),
        ensures
            final(self)@ == store_u8(old(self)@, addr as int, val),
    {
        self.mem.store8(addr, val);
    }

    /// Stores a halfword at `addr`, low byte first.
    pub fn store16(&mut self, addr: usize, val: u16)
        requires
            in_bounds(old(self)@, addr as int, 2),
        ensures
            final(self)@ == store_u16(old(self)@, addr as int, val),
    {
        self.mem.store16(addr, val);
    }

    /// Stores a word at `addr`, lowest byte first.
    pub fn store32(&mut self, addr: usize, val: u32)
        requires
            in_bounds(old(self)@, addr as int, 4),
        ensures
            final(self)@ == store_u32(old(self)@, addr as int, val),
    {
        self.mem.store32(addr, val);
    }
}

} // verus!
