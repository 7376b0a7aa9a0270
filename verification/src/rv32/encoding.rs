//! A raw 32-bit instruction word and the fields that can be cut out of it.

use super::bits::{bits, lemma_fields, lemma_two_pow, low, sign_extend};
use super::instr::RvReg;
use super::opcode::RvOpcode;
use vstd::bits::{
    lemma_u64_low_bits_mask_is_mod, lemma_u64_pow2_no_overflow, lemma_u64_shl_is_mul,
};
use vstd::prelude::*;

verus! {

/// The layout of an instruction's fields.
#[derive(Clone, Copy, Debug, PartialEq, Eq, Structural)]
pub enum RvEncodingFormat {
    R,
    I,
    S,
    U,
    B,
    J,
}

/// A raw 32-bit instruction word.
#[derive(Clone, Copy, Debug, PartialEq, Eq, Structural)]
pub struct RvEncoding(pub u32);

/// Sign-extends the low `bits` bits of `x` to 32 bits.
pub fn sext32(x: u32, bits: u32) -> (r: i32)
    requires
        1 <= bits <= 32,
    ensures
        r == sign_extend(low(x as int, bits as nat), bits as nat),
{
    let shift: u32 = 32 - bits;
    let r = ((x << shift) as i32) >> shift;
    proof {
        let n = bits as u64;
        let full = 1u64 << n;
        let half = 1u64 << ((n - 1) as u64);
        let low = (x as u64) & ((full - 1) as u64);
        assert(r as int == if low >= half {
            low - full
        } else {
            low as int
        }) by (bit_vector)
            requires
                1 <= n <= 32,
                shift == 32 - n,
                full == 1u64 << n,
                half == 1u64 << ((n - 1) as u64),
                low == (x as u64) & ((full - 1) as u64),
                r == ((x << shift) as i32) >> shift,
        ;
        lemma_u64_low_bits_mask_is_mod(x as u64, n as nat);
        lemma_two_pow(x as int, n as nat);
        lemma_two_pow(x as int, (n - 1) as nat);
        lemma_u64_pow2_no_overflow(n as nat);
        lemma_u64_pow2_no_overflow((n - 1) as nat);
        lemma_u64_shl_is_mul(1, n);
        lemma_u64_shl_is_mul(1, (n - 1) as u64);
    }
    r
}

impl RvEncoding {
    /// The I-format immediate: `imm[11:0] = inst[31:20]`.
    pub open spec fn imm_i(self) -> int {
        sign_extend(bits(self.0, 31, 20), 12)
    }

    /// The S-format immediate: `imm[11:5] = inst[31:25]`, `imm[4:0] = inst[11:7]`.
    pub open spec fn imm_s(self) -> int {
        sign_extend(bits(self.0, 31, 25) * 0x20 + bits(self.0, 11, 7), 12)
    }

    /// The B-format immediate: `imm[12|10:5|4:1|11] = inst[31|30:25|11:8|7]`, `imm[0] = 0`.
    pub open spec fn imm_b(self) -> int {
        sign_extend(
            bits(self.0, 31, 31) * 0x1000 + bits(self.0, 7, 7) * 0x800 + bits(self.0, 30, 25)
                * 0x20 + bits(self.0, 11, 8) * 2,
            13,
        )
    }

    /// The U-format immediate: `imm[31:12] = inst[31:12]`, the low twelve bits zero.
    pub open spec fn imm_u(self) -> int {
        bits(self.0, 31, 12) * 0x1000
    }

    /// The J-format immediate: `imm[20|10:1|11|19:12] = inst[31|30:21|20|19:12]`,
    /// `imm[0] = 0`.
    pub open spec fn imm_j(self) -> int {
        sign_extend(
            bits(self.0, 31, 31) * 0x10_0000 + bits(self.0, 19, 12) * 0x1000 + bits(self.0, 20, 20)
                * 0x800 + bits(self.0, 30, 21) * 2,
            21,
        )
    }

    /// The major opcode, where bits [6:2] name one.
    pub open spec fn spec_opcode(self) -> Option<RvOpcode> {
        RvOpcode::of_code(bits(self.0, 6, 2))
    }

    /// The field layout that goes with the major opcode, for the opcodes of the base
    /// instruction set.
    pub open spec fn format(self) -> Option<RvEncodingFormat> {
        match self.spec_opcode() {
            Some(RvOpcode::OP) => Some(RvEncodingFormat::R),
            Some(RvOpcode::JAL) => Some(RvEncodingFormat::J),
            Some(RvOpcode::STORE) => Some(RvEncodingFormat::S),
            Some(RvOpcode::BRANCH) => Some(RvEncodingFormat::B),
            Some(RvOpcode::AUIPC) | Some(RvOpcode::LUI) => Some(RvEncodingFormat::U),
            Some(RvOpcode::MISC_MEM) | Some(RvOpcode::OP_IMM) | Some(RvOpcode::JALR) | Some(
                RvOpcode::SYSTEM,
            ) | Some(RvOpcode::LOAD) => Some(RvEncodingFormat::I),
            _ => None,
        }
    }

    /// The sign-extended immediate of the word's format, for the four formats that have one.
    pub open spec fn spec_simm(self) -> Option<int> {
        match self.format() {
            Some(RvEncodingFormat::I) => Some(self.imm_i()),
            Some(RvEncodingFormat::S) => Some(self.imm_s()),
            Some(RvEncodingFormat::B) => Some(self.imm_b()),
            Some(RvEncodingFormat::J) => Some(self.imm_j()),
            _ => None,
        }
    }

    /// Every signed immediate fits in 32 bits; B and J immediates are even.
    pub proof fn lemma_imm_ranges(self)
        ensures
            -0x800 <= self.imm_i() < 0x800,
            -0x800 <= self.imm_s() < 0x800,
            -0x1000 <= self.imm_b() < 0x1000,
            self.imm_b() % 2 == 0,
            0 <= self.imm_u() <= 0xffff_f000,
            self.imm_u() % 0x1000 == 0,
            -0x10_0000 <= self.imm_j() < 0x10_0000,
            self.imm_j() % 2 == 0,
    {
    }

    /// The field layout of the word; `None` where the opcode is outside the base set.
    pub fn fmt(&self) -> (r: Option<RvEncodingFormat>)
        ensures
            r == self.format(),
    {
        match self.opcode() {
            Some(RvOpcode::OP) => Some(RvEncodingFormat::R),
            Some(RvOpcode::JAL) => Some(RvEncodingFormat::J),
            Some(RvOpcode::STORE) => Some(RvEncodingFormat::S),
            Some(RvOpcode::BRANCH) => Some(RvEncodingFormat::B),
            Some(RvOpcode::AUIPC) | Some(RvOpcode::LUI) => Some(RvEncodingFormat::U),
            Some(RvOpcode::MISC_MEM) | Some(RvOpcode::OP_IMM) | Some(RvOpcode::JALR) | Some(
                RvOpcode::SYSTEM,
            ) | Some(RvOpcode::LOAD) => Some(RvEncodingFormat::I),
            _ => None,
        }
    }

    /// The major opcode in bits [6:2]; `None` for the four values that name none.
    pub fn opcode(&self) -> (r: Option<RvOpcode>)
        ensures
            r == self.spec_opcode(),
    {
        proof {
            lemma_fields(self.0);
        }
        RvOpcode::from_bits((self.0 & 0b0000_000_00000_00000_000_00000_11111_00) >> 2)
    }

    /// The destination register, bits [11:7].
    pub fn rd(&self) -> (r: RvReg)
        ensures
            r.0 == bits(self.0, 11, 7),
            r.wf(),
    {
        proof {
            lemma_fields(self.0);
        }
        RvReg(((self.0 & 0b0000_000_00000_00000_000_11111_00000_00) >> 7) as usize)
    }

    /// The minor opcode `funct3`, bits [14:12].
    pub fn f3(&self) -> (r: u32)
        ensures
            r == bits(self.0, 14, 12),
            r < 8,
    {
        proof {
            lemma_fields(self.0);
        }
        (self.0 & 0b0000_000_00000_00000_111_00000_00000_00) >> 12
    }

    /// The first source register, bits [19:15].
    pub fn rs1(&self) -> (r: RvReg)
        ensures
            r.0 == bits(self.0, 19, 15),
            r.wf(),
    {
        proof {
            lemma_fields(self.0);
        }
        RvReg(((self.0 & 0b0000_000_00000_11111_000_00000_00000_00) >> 15) as usize)
    }

    /// The second source register, bits [24:20].
    pub fn rs2(&self) -> (r: RvReg)
        ensures
            r.0 == bits(self.0, 24, 20),
            r.wf(),
    {
        proof {
            lemma_fields(self.0);
        }
        RvReg(((self.0 & 0b0000_000_11111_00000_000_00000_00000_00) >> 20) as usize)
    }

    /// The minor opcode `funct7`, bits [31:25].
    pub fn f7(&self) -> (r: u32)
        ensures
            r == bits(self.0, 31, 25),
            r < 128,
    {
        proof {
            lemma_fields(self.0);
        }
        (self.0 & 0b1111_111_00000_00000_000_00000_00000_00) >> 25
    }

    /// The upper immediate, left in bits [31:12] where the instruction holds it.
    pub fn uimm(&self) -> (r: u32)
        ensures
            r == self.imm_u(),
    {
        proof {
            lemma_fields(self.0);
        }
        self.0 & 0b1111_1111_1111_1111_1111_0000_0000_0000
    }

    /// The sign-extended immediate of an I, S, B or J word; `None` for any other word.
    pub fn simm(&self) -> (r: Option<i32>)
        ensures
            r matches Some(v) ==> self.spec_simm() == Some(v as int),
            r is None ==> self.spec_simm() is None,
    {
        let w = self.0;
        match self.fmt() {
            Some(RvEncodingFormat::I) => {
                let imm = (w & 0xfff0_0000) >> 20;
                proof {
                    lemma_imm_i(w, imm);
                }
                Some(sext32(imm, 12))
            },
            Some(RvEncodingFormat::S) => {
                let hi = (w & 0xfe00_0000) >> 20;
                let lo = (w & 0x0000_0f80) >> 7;
                proof {
                    lemma_imm_s(w, hi | lo);
                }
                Some(sext32(hi | lo, 12))
            },
            Some(RvEncodingFormat::J) => {
                let imm20 = ((w & 0x8000_0000) >> 31) << 20;
                let imm10_1 = ((w & 0x7fe0_0000) >> 21) << 1;
                let imm11 = ((w & 0x0010_0000) >> 20) << 11;
                let imm19_12 = ((w & 0x000f_f000) >> 12) << 12;
                let tmp = imm20 | imm19_12 | imm11 | imm10_1;
                proof {
                    lemma_imm_j(w, tmp);
                }
                Some(sext32(tmp, 21))
            },
            Some(RvEncodingFormat::B) => {
                let imm12 = ((w & 0x8000_0000) >> 31) << 12;
                let imm10_5 = ((w & 0x7e00_0000) >> 25) << 5;
                let imm4_1 = ((w & 0x0000_0f00) >> 8) << 1;
                let imm11 = ((w & 0x0000_0080) >> 7) << 11;
                let tmp = imm12 | imm11 | imm10_5 | imm4_1;
                proof {
                    lemma_imm_b(w, tmp);
                }
                Some(sext32(tmp, 13))
            },
            _ => None,
        }
    }
}

/// The I-immediate as `simm` assembles it.
proof fn lemma_imm_i(w: u32, x: u32)
    requires
        x == (w & 0xfff0_0000) >> 20,
    ensures
        sign_extend(low(x as int, 12), 12) == RvEncoding(w).imm_i(),
{
    assert(x == (w / 0x10_0000) % 0x1000) by (bit_vector)
        requires
            x == (w & 0xfff0_0000) >> 20,
    ;
}

/// The S-immediate as `simm` assembles it.
proof fn lemma_imm_s(w: u32, x: u32)
    requires
        x == ((w & 0xfe00_0000) >> 20) | ((w & 0x0000_0f80) >> 7),
    ensures
        sign_extend(low(x as int, 12), 12) == RvEncoding(w).imm_s(),
{
    assert(x == ((w / 0x200_0000) % 0x80) * 0x20 + (w / 0x80) % 0x20) by (bit_vector)
        requires
            x == ((w & 0xfe00_0000) >> 20) | ((w & 0x0000_0f80) >> 7),
    ;
}

/// The J-immediate as `simm` assembles it.
proof fn lemma_imm_j(w: u32, x: u32)
    requires
        x == (((w & 0x8000_0000) >> 31) << 20) | (((w & 0x000f_f000) >> 12) << 12) | (((w
            & 0x0010_0000) >> 20) << 11) | (((w & 0x7fe0_0000) >> 21) << 1),
    ensures
        sign_extend(low(x as int, 21), 21) == RvEncoding(w).imm_j(),
{
    assert(x == ((w / 0x8000_0000) % 2) * 0x10_0000 + ((w / 0x1000) % 0x100) * 0x1000 + ((w
        / 0x10_0000) % 2) * 0x800 + ((w / 0x20_0000) % 0x400) * 2) by (bit_vector)
        requires
            x == (((w & 0x8000_0000) >> 31) << 20) | (((w & 0x000f_f000) >> 12) << 12) | (((w
                & 0x0010_0000) >> 20) << 11) | (((w & 0x7fe0_0000) >> 21) << 1),
    ;
}

/// The B-immediate as `simm` assembles it.
proof fn lemma_imm_b(w: u32, x: u32)
    requires
        x == (((w & 0x8000_0000) >> 31) << 12) | (((w & 0x0000_0080) >> 7) << 11) | (((w
            & 0x7e00_0000) >> 25) << 5) | (((w & 0x0000_0f00) >> 8) << 1),
    ensures
        sign_extend(low(x as int, 13), 13) == RvEncoding(w).imm_b(),
{
    assert(x == ((w / 0x8000_0000) % 2) * 0x1000 + ((w / 0x80) % 2) * 0x800 + ((w / 0x200_0000)
        % 0x40) * 0x20 + ((w / 0x100) % 0x10) * 2) by (bit_vector)
        requires
            x == (((w & 0x8000_0000) >> 31) << 12) | (((w & 0x0000_0080) >> 7) << 11) | (((w
                & 0x7e00_0000) >> 25) << 5) | (((w & 0x0000_0f00) >> 8) << 1),
    ;
}

} // verus!
