//! Bit fields of a 32-bit word, stated arithmetically.

use vstd::arithmetic::power2::{lemma2_to64, pow2};
use vstd::prelude::*;

verus! {

/// Two to the power `n`. The powers up to 2^32 are written out, so that a value can be
/// computed by unfolding alone.
pub open spec fn two_pow(n: nat) -> int {
    if n == 0 {
        0x1
    } else if n == 1 {
        0x2
    } else if n == 2 {
        0x4
    } else if n == 3 {
        0x8
    } else if n == 4 {
        0x10
    } else if n == 5 {
        0x20
    } else if n == 6 {
        0x40
    } else if n == 7 {
        0x80
    } else if n == 8 {
        0x100
    } else if n == 9 {
        0x200
    } else if n == 10 {
        0x400
    } else if n == 11 {
        0x800
    } else if n == 12 {
        0x1000
    } else if n == 13 {
        0x2000
    } else if n == 14 {
        0x4000
    } else if n == 15 {
        0x8000
    } else if n == 16 {
        0x1_0000
    } else if n == 17 {
        0x2_0000
    } else if n == 18 {
        0x4_0000
    } else if n == 19 {
        0x8_0000
    } else if n == 20 {
        0x10_0000
    } else if n == 21 {
        0x20_0000
    } else if n == 22 {
        0x40_0000
    } else if n == 23 {
        0x80_0000
    } else if n == 24 {
        0x100_0000
    } else if n == 25 {
        0x200_0000
    } else if n == 26 {
        0x400_0000
    } else if n == 27 {
        0x800_0000
    } else if n == 28 {
        0x1000_0000
    } else if n == 29 {
        0x2000_0000
    } else if n == 30 {
        0x4000_0000
    } else if n == 31 {
        0x8000_0000
    } else if n == 32 {
        0x1_0000_0000
    } else {
        pow2(n) as int
    }
}

/// `x` without its low `n` bits: the quotient of `x` by 2^n.
pub open spec fn drop_low(x: int, n: nat) -> int {
    if n == 0 {
        x
    } else if n == 1 {
        x / 0x2
    } else if n == 2 {
        x / 0x4
    } else if n == 3 {
        x / 0x8
    } else if n == 4 {
        x / 0x10
    } else if n == 5 {
        x / 0x20
    } else if n == 6 {
        x / 0x40
    } else if n == 7 {
        x / 0x80
    } else if n == 8 {
        x / 0x100
    } else if n == 9 {
        x / 0x200
    } else if n == 10 {
        x / 0x400
    } else if n == 11 {
        x / 0x800
    } else if n == 12 {
        x / 0x1000
    } else if n == 13 {
        x / 0x2000
    } else if n == 14 {
        x / 0x4000
    } else if n == 15 {
        x / 0x8000
    } else if n == 16 {
        x / 0x1_0000
    } else if n == 17 {
        x / 0x2_0000
    } else if n == 18 {
        x / 0x4_0000
    } else if n == 19 {
        x / 0x8_0000
    } else if n == 20 {
        x / 0x10_0000
    } else if n == 21 {
        x / 0x20_0000
    } else if n == 22 {
        x / 0x40_0000
    } else if n == 23 {
        x / 0x80_0000
    } else if n == 24 {
        x / 0x100_0000
    } else if n == 25 {
        x / 0x200_0000
    } else if n == 26 {
        x / 0x400_0000
    } else if n == 27 {
        x / 0x800_0000
    } else if n == 28 {
        x / 0x1000_0000
    } else if n == 29 {
        x / 0x2000_0000
    } else if n == 30 {
        x / 0x4000_0000
    } else if n == 31 {
        x / 0x8000_0000
    } else if n == 32 {
        x / 0x1_0000_0000
    } else {
        x / (pow2(n) as int)
    }
}

/// The low `n` bits of `x`: the remainder of `x` by 2^n.
pub open spec fn low(x: int, n: nat) -> int {
    if n == 0 {
        0
    } else if n == 1 {
        x % 0x2
    } else if n == 2 {
        x % 0x4
    } else if n == 3 {
        x % 0x8
    } else if n == 4 {
        x % 0x10
    } else if n == 5 {
        x % 0x20
    } else if n == 6 {
        x % 0x40
    } else if n == 7 {
        x % 0x80
    } else if n == 8 {
        x % 0x100
    } else if n == 9 {
        x % 0x200
    } else if n == 10 {
        x % 0x400
    } else if n == 11 {
        x % 0x800
    } else if n == 12 {
        x % 0x1000
    } else if n == 13 {
        x % 0x2000
    } else if n == 14 {
        x % 0x4000
    } else if n == 15 {
        x % 0x8000
    } else if n == 16 {
        x % 0x1_0000
    } else if n == 17 {
        x % 0x2_0000
    } else if n == 18 {
        x % 0x4_0000
    } else if n == 19 {
        x % 0x8_0000
    } else if n == 20 {
        x % 0x10_0000
    } else if n == 21 {
        x % 0x20_0000
    } else if n == 22 {
        x % 0x40_0000
    } else if n == 23 {
        x % 0x80_0000
    } else if n == 24 {
        x % 0x100_0000
    } else if n == 25 {
        x % 0x200_0000
    } else if n == 26 {
        x % 0x400_0000
    } else if n == 27 {
        x % 0x800_0000
    } else if n == 28 {
        x % 0x1000_0000
    } else if n == 29 {
        x % 0x2000_0000
    } else if n == 30 {
        x % 0x4000_0000
    } else if n == 31 {
        x % 0x8000_0000
    } else if n == 32 {
        x % 0x1_0000_0000
    } else {
        x % (pow2(n) as int)
    }
}

/// The three tables hold the powers of two.
pub proof fn lemma_two_pow(x: int, n: nat)
    ensures
        two_pow(n) == pow2(n),
        drop_low(x, n) == x / (pow2(n) as int),
        low(x, n) == x % (pow2(n) as int),
{
    lemma2_to64();
}

/// The bit field `w[hi:lo]` (both ends inclusive), as a number.
pub open spec fn bits(w: u32, hi: nat, lo: nat) -> int
    recommends
        lo <= hi < 32,
{
    low(drop_low(w as int, lo), (hi + 1 - lo) as nat)
}

/// The value of an `n`-bit two's-complement field whose unsigned reading is `x`.
pub open spec fn sign_extend(x: int, n: nat) -> int
    recommends
        0 < n <= 32,
        0 <= x < two_pow(n),
{
    if x >= two_pow((n - 1) as nat) {
        x - two_pow(n)
    } else {
        x
    }
}

/// The fields that the base encodings cut out of a word, each as shifts and masks compute it.
pub proof fn lemma_fields(w: u32)
    ensures
        w & 0x3 == bits(w, 1, 0),
        (w & 0x0000_007c) >> 2 == bits(w, 6, 2),
        (w & 0x0000_0f80) >> 7 == bits(w, 11, 7),
        (w & 0x0000_7000) >> 12 == bits(w, 14, 12),
        (w & 0x000f_8000) >> 15 == bits(w, 19, 15),
        (w & 0x01f0_0000) >> 20 == bits(w, 24, 20),
        (w & 0xfe00_0000) >> 25 == bits(w, 31, 25),
        (w & 0xfff0_0000) >> 20 == bits(w, 31, 20),
        w & 0xffff_f000 == bits(w, 31, 12) * 0x1000,
{
    assert(w & 0x3 == w % 4
        && (w & 0x0000_007c) >> 2 == (w / 4) % 32
        && (w & 0x0000_0f80) >> 7 == (w / 0x80) % 32
        && (w & 0x0000_7000) >> 12 == (w / 0x1000) % 8
        && (w & 0x000f_8000) >> 15 == (w / 0x8000) % 32
        && (w & 0x01f0_0000) >> 20 == (w / 0x10_0000) % 32
        && (w & 0xfe00_0000) >> 25 == (w / 0x200_0000) % 128
        && (w & 0xfff0_0000) >> 20 == (w / 0x10_0000) % 0x1000
        && w & 0xffff_f000 == ((w / 0x1000) % 0x10_0000) * 0x1000) by (bit_vector);
}

} // verus!
