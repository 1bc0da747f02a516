//! Bytes, words and single bits, stated as arithmetic.
//!
//! Contracts in this crate speak of bytes through `/` and `%`; the executable code
//! shifts and masks. The lemmas here connect the two.

use vstd::prelude::*;

verus! {

/// The numeric value of a flag: 1 when set, 0 when clear.
pub open spec fn flag(b: bool) -> int {
    if b {
        1
    } else {
        0
    }
}

/// The low byte of a 16-bit word.
pub open spec fn low(v: u16) -> u8 {
    (v % 256) as u8
}

/// The high byte of a 16-bit word.
pub open spec fn high(v: u16) -> u8 {
    (v / 256) as u8
}

/// The 16-bit word with high byte `h` and low byte `l`.
pub open spec fn word(h: u8, l: u8) -> u16 {
    (h * 256 + l) as u16
}

/// Whether binary digit `n` of `v` is 1, digit 0 being the least significant.
pub open spec fn bit(v: u8, n: int) -> bool {
    if n == 0 {
        v % 2 == 1
    } else if n == 1 {
        (v / 2) % 2 == 1
    } else if n == 2 {
        (v / 4) % 2 == 1
    } else if n == 3 {
        (v / 8) % 2 == 1
    } else if n == 4 {
        (v / 16) % 2 == 1
    } else if n == 5 {
        (v / 32) % 2 == 1
    } else if n == 6 {
        (v / 64) % 2 == 1
    } else if n == 7 {
        (v / 128) % 2 == 1
    } else {
        false
    }
}

/// The number of binary digits of `v` that are 1.
#[verifier::opaque]
pub open spec fn ones(v: u8) -> int {
    flag(bit(v, 0)) + flag(bit(v, 1)) + flag(bit(v, 2)) + flag(bit(v, 3)) + flag(bit(v, 4))
        + flag(bit(v, 5)) + flag(bit(v, 6)) + flag(bit(v, 7))
}

/// Even parity: an even number of the digits of `v` are 1.
pub open spec fn even_parity(v: u8) -> bool {
    ones(v) % 2 == 0
}

/// `n mod 256`, for any integer `n`.
pub open spec fn wrap8(n: int) -> u8 {
    (n % 256) as u8
}

/// `n mod 65536`, for any integer `n`.
pub open spec fn wrap16(n: int) -> u16 {
    (n % 65536) as u16
}

pub proof fn lemma_word_parts(v: u16)
    ensures
        word(high(v), low(v)) == v,
{
}

pub proof fn lemma_parts_of_word(h: u8, l: u8)
    ensures
        high(word(h, l)) == h,
        low(word(h, l)) == l,
{
}

proof fn lemma_mask_shift_u16(v: u16)
    by (bit_vector)
    ensures
        v & 0xff == v % 256,
        v >> 8 == v / 256,
{
}

proof fn lemma_join_u16(h: u16, l: u16)
    by (bit_vector)
    requires
        h < 256,
        l < 256,
    ensures
        (h << 8) | l == h * 256 + l,
{
}

proof fn lemma_bit_tests(v: u8)
    by (bit_vector)
    ensures
        (v & 0x01 != 0) == (v % 2 == 1),
        (v & 0x02 != 0) == ((v / 2) % 2 == 1),
        (v & 0x04 != 0) == ((v / 4) % 2 == 1),
        (v & 0x08 != 0) == ((v / 8) % 2 == 1),
        (v & 0x10 != 0) == ((v / 16) % 2 == 1),
        (v & 0x20 != 0) == ((v / 32) % 2 == 1),
        (v & 0x40 != 0) == ((v / 64) % 2 == 1),
        (v & 0x80 != 0) == ((v / 128) % 2 == 1),
{
}

proof fn lemma_shift_u8(n: u8)
    by (bit_vector)
    requires
        n < 8,
    ensures
        (1u8 << n) == (if n == 0 {
            1u8
        } else if n == 1 {
            2u8
        } else if n == 2 {
            4u8
        } else if n == 3 {
            8u8
        } else if n == 4 {
            16u8
        } else if n == 5 {
            32u8
        } else if n == 6 {
            64u8
        } else {
            128u8
        }),
{
}

proof fn lemma_parity_fold(v: u8)
    by (bit_vector)
    ensures
        ({
            let a = v ^ (v >> 4);
            let b = a ^ (a >> 2);
            let c = b ^ (b >> 1);
            c & 1
        }) == (v % 2 + (v / 2) % 2 + (v / 4) % 2 + (v / 8) % 2 + (v / 16) % 2 + (v / 32) % 2 + (v
            / 64) % 2 + (v / 128) % 2) % 2,
{
}

/// The low byte of `v`.
pub fn low_byte(v: u16) -> (r: u8)
    ensures
        r == low(v),
{
    proof {
        lemma_mask_shift_u16(v);
    }
    (v & 0xff) as u8
}

/// The high byte of `v`.
pub fn high_byte(v: u16) -> (r: u8)
    ensures
        r == high(v),
{
    proof {
        lemma_mask_shift_u16(v);
    }
    (v >> 8) as u8
}

/// Joins two bytes to a word, `h` in the upper half.
pub fn make_word(h: u8, l: u8) -> (r: u16)
    ensures
        r == word(h, l),
{
    let hw: u16 = h as u16;
    let lw: u16 = l as u16;
    proof {
        lemma_join_u16(hw, lw);
    }
    (hw << 8) | lw
}

/// Tests binary digit `n` of `v`.
pub fn test_bit(v: u8, n: u8) -> (r: bool)
    requires
        n < 8,
    ensures
        r == bit(v, n as int),
{
    proof {
        lemma_shift_u8(n);
        lemma_bit_tests(v);
    }
    (v & (1u8 << n)) != 0
}

/// Whether `x` is zero.
pub fn zero(x: &u8) -> (r: bool)
    ensures
        r == (*x == 0),
{
    *x == 0
}

/// Whether bit 7 of `x` is set.
pub fn sign(x: &u8) -> (r: bool)
    ensures
        r == bit(*x, 7),
        r == (*x >= 128),
{
    test_bit(*x, 7)
}

/// Whether `x` has an even number of 1 digits.
pub fn parity(x: &u8) -> (r: bool)
    ensures
        r == even_parity(*x),
{
    let v: u8 = *x;
    let a: u8 = v ^ (v >> 4);
    let b: u8 = a ^ (a >> 2);
    let c: u8 = b ^ (b >> 1);
    proof {
        reveal(ones);
        lemma_parity_fold(v);
    }
    (c & 1) == 0
}

} // verus!
