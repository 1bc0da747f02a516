//! The flags register.

use crate::cpu::bits::{bit, even_parity, flag, low, low_byte, parity, sign, test_bit, zero};
use vstd::prelude::*;

verus! {

/// The five condition flags of the processor.
///
/// The status byte has three more positions whose values the architecture fixes
/// (bit 1 reads 1, bits 3 and 5 read 0). They are not stored: [`ConditionCodes::get_f`]
/// writes them and [`ConditionCodes::set_f`] passes over them.
#[derive(Clone, Copy, Debug, PartialEq, Eq)]
pub struct ConditionCodes {
    /// Bit 7 of the status byte: the result's bit 7 was set.
    pub s: bool,
    /// Bit 6: the result was zero.
    pub z: bool,
    /// Bit 4: a carry left the low nibble.
    pub ac: bool,
    /// Bit 2: the result had an even number of 1 bits.
    pub p: bool,
    /// Bit 0: a carry left bit 7, or a subtraction borrowed.
    pub cy: bool,
}

/// Two to the power `n`, for the bit positions of a 16-bit intermediate.
pub open spec fn two_to(n: int) -> int {
    if n <= 0 {
        1
    } else if n == 1 {
        2
    } else if n == 2 {
        4
    } else if n == 3 {
        8
    } else if n == 4 {
        16
    } else if n == 5 {
        32
    } else if n == 6 {
        64
    } else if n == 7 {
        128
    } else if n == 8 {
        256
    } else if n == 9 {
        512
    } else if n == 10 {
        1024
    } else if n == 11 {
        2048
    } else if n == 12 {
        4096
    } else if n == 13 {
        8192
    } else if n == 14 {
        16384
    } else {
        32768
    }
}

/// Whether adding `a`, `b` and the incoming carry `cy` carries into bit `n`:
/// the digits below `n` sum to `2^n` or more. Nothing is carried beyond bit 8.
pub open spec fn carry_into(n: int, a: u8, b: u8, cy: bool) -> bool {
    n <= 8 && (a as int) % two_to(n) + (b as int) % two_to(n) + flag(cy) >= two_to(n)
}

proof fn lemma_carry_bit(n: u16, a: u16, b: u16, c: u16)
    by (bit_vector)
    requires
        n < 16,
        a < 256,
        b < 256,
        c <= 1,
    ensures
        ((((a + b + c) as u16) ^ a ^ b) & (1u16 << n) != 0) == (n <= 8 && a % (1u16 << n) + b % (
        1u16 << n) + c >= (1u16 << n)),
        n == 0 ==> (1u16 << n) == 1,
        n == 1 ==> (1u16 << n) == 2,
        n == 2 ==> (1u16 << n) == 4,
        n == 3 ==> (1u16 << n) == 8,
        n == 4 ==> (1u16 << n) == 16,
        n == 5 ==> (1u16 << n) == 32,
        n == 6 ==> (1u16 << n) == 64,
        n == 7 ==> (1u16 << n) == 128,
        n == 8 ==> (1u16 << n) == 256,
        n == 9 ==> (1u16 << n) == 512,
        n == 10 ==> (1u16 << n) == 1024,
        n == 11 ==> (1u16 << n) == 2048,
        n == 12 ==> (1u16 << n) == 4096,
        n == 13 ==> (1u16 << n) == 8192,
        n == 14 ==> (1u16 << n) == 16384,
        n == 15 ==> (1u16 << n) == 32768,
{
}

proof fn lemma_pack(s: u8, z: u8, ac: u8, p: u8, cy: u8)
    by (bit_vector)
    requires
        s <= 1,
        z <= 1,
        ac <= 1,
        p <= 1,
        cy <= 1,
    ensures
        (s << 7) | (z << 6) | (ac << 4) | (p << 2) | 0x02 | cy == 128 * s + 64 * z + 16 * ac + 4
            * p + 2 + cy,
{
}

impl ConditionCodes {
    /// The flags with Zero, Sign and Parity taken from the byte `v`, the rest kept.
    pub open spec fn with_zsp(self, v: u8) -> ConditionCodes {
        ConditionCodes { z: v == 0, s: bit(v, 7), p: even_parity(v), ..self }
    }

    /// The status byte: Sign, Zero, 0, Auxiliary-Carry, 0, Parity, 1, Carry,
    /// from bit 7 down to bit 0.
    pub open spec fn psw(self) -> u8 {
        (128 * flag(self.s) + 64 * flag(self.z) + 16 * flag(self.ac) + 4 * flag(self.p) + 2
            + flag(self.cy)) as u8
    }

    /// The flags that the status byte `v` encodes. Bits 1, 3 and 5 of `v` are not read.
    pub open spec fn from_psw(v: u8) -> ConditionCodes {
        ConditionCodes {
            s: bit(v, 7),
            z: bit(v, 6),
            ac: bit(v, 4),
            p: bit(v, 2),
            cy: bit(v, 0),
        }
    }

    /// All flags clear.
    pub fn new() -> (cc: ConditionCodes)
        ensures
            cc == (ConditionCodes { s: false, z: false, ac: false, p: false, cy: false }),
    {
        ConditionCodes { s: false, z: false, ac: false, p: false, cy: false }
    }

    /// Sets Zero, Sign and Parity from the low byte of the intermediate `val`; with
    /// `do_cy`, sets Carry when `val` exceeds 0xff, and without it keeps Carry.
    /// Auxiliary-Carry is kept: it is a carry between nibbles, which the
    /// intermediate does not show, and each operation sets it from its operands.
    pub fn set_arithmetic_flags(&mut self, val: &u16, do_cy: bool)
        ensures
            *final(self) == (ConditionCodes {
                cy: if do_cy {
                    *val > 0xff
                } else {
                    old(self).cy
                },
                ..old(self).with_zsp(low(*val))
            }),
            final(self).ac == old(self).ac,
    {
        self.set_zsp(val);
        if do_cy {
            self.cy = *val > 0xff;
        }
    }

    /// Sets Zero, Sign and Parity from the low byte of the intermediate `val`:
    /// Zero when that byte is 0, Sign when its bit 7 is set, Parity when an even
    /// number of its bits are set. Carry and Auxiliary-Carry keep their values.
    pub fn set_zsp(&mut self, val: &u16)
        ensures
            *final(self) == old(self).with_zsp(low(*val)),
            final(self).z == (*val % 256 == 0),
            final(self).s == (*val % 256 >= 128),
            final(self).p == even_parity(low(*val)),
            final(self).cy == old(self).cy,
            final(self).ac == old(self).ac,
    {
        let byte: u8 = low_byte(*val);
        self.z = zero(&byte);
        self.s = sign(&byte);
        self.p = parity(&byte);
    }

    /// Packs the flags into the status byte.
    pub fn get_f(&self) -> (f: u8)
        ensures
            f == self.psw(),
            bit(f, 1),
            !bit(f, 3),
            !bit(f, 5),
    {
        let s: u8 = if self.s { 1 } else { 0 };
        let z: u8 = if self.z { 1 } else { 0 };
        let ac: u8 = if self.ac { 1 } else { 0 };
        let p: u8 = if self.p { 1 } else { 0 };
        let cy: u8 = if self.cy { 1 } else { 0 };
        proof {
            lemma_pack(s, z, ac, p, cy);
        }
        (s << 7) | (z << 6) | (ac << 4) | (p << 2) | 0x02 | cy
    }

    /// Unpacks the status byte `val` into the flags.
    pub fn set_f(&mut self, val: u8)
        ensures
            *final(self) == ConditionCodes::from_psw(val),
    {
        self.s = test_bit(val, 7);
        self.z = test_bit(val, 6);
        self.ac = test_bit(val, 4);
        self.p = test_bit(val, 2);
        self.cy = test_bit(val, 0);
    }

    /// Whether the sum `a + b + cy` carries into bit `bit_no`. The flags are not changed.
    pub fn carry(&mut self, bit_no: u8, a: u8, b: u8, cy: bool) -> (r: bool)
        requires
            bit_no < 16,
        ensures
            r == carry_into(bit_no as int, a, b, cy),
            *final(self) == *old(self),
    {
        let n: u16 = bit_no as u16;
        let aw: u16 = a as u16;
        let bw: u16 = b as u16;
        let cw: u16 = if cy { 1 } else { 0 };
        let result: u16 = aw + bw + cw;
        proof {
            lemma_carry_bit(n, aw, bw, cw);
        }
        ((result ^ aw ^ bw) & (1u16 << n)) != 0
    }

    /// Sets Carry as the addition `a + b + cy` leaves it: set when the sum exceeds 0xff.
    pub fn set_cy(&mut self, a: u8, b: u8, cy: bool)
        ensures
            *final(self) == (ConditionCodes { cy: a + b + flag(cy) > 0xff, ..*old(self) }),
    {
        let carried = self.carry(8, a, b, cy);
        self.cy = carried;
    }

    /// Sets Auxiliary-Carry as the addition `a + b + cy` leaves it: set when the low
    /// nibbles and the incoming carry sum to more than 0xf.
    pub fn set_ac(&mut self, a: u8, b: u8, cy: bool)
        ensures
            *final(self) == (ConditionCodes { ac: a % 16 + b % 16 + flag(cy) > 0xf, ..*old(self) }),
    {
        let carried = self.carry(4, a, b, cy);
        self.ac = carried;
    }
}

/// Decoding the status byte that [`ConditionCodes::get_f`] packs gives the flags back.
pub proof fn lemma_psw_round_trip(cc: ConditionCodes)
    ensures
        ConditionCodes::from_psw(cc.psw()) == cc,
{
}

/// Packing the flags that a byte decodes to gives the byte back, but for the three
/// fixed positions: bit 1 reads 1, bits 3 and 5 read 0.
pub proof fn lemma_psw_normalises(v: u8)
    ensures
        forall|n: int|
            0 <= n < 8 ==> #[trigger] bit(ConditionCodes::from_psw(v).psw(), n) == (if n == 1 {
                true
            } else if n == 3 || n == 5 {
                false
            } else {
                bit(v, n)
            }),
{
}

} // verus!
