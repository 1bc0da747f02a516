//! The instructions on registers: each function takes the registers it works on
//! and, where the instruction has them, the flags and the memory.

use crate::cpu::bits::{bit, flag, high_byte, low, low_byte, make_word, test_bit, word, wrap16, wrap8};
use crate::cpu::flags::ConditionCodes;
use crate::cpu::memory::{readable, writable, written, Memory};
use vstd::prelude::*;

verus! {

/// The flags after the addition `a + b + cy`.
#[verifier::opaque]
pub open spec fn after_add(cc: ConditionCodes, a: u8, b: u8, cy: bool) -> ConditionCodes {
    ConditionCodes {
        cy: a + b + flag(cy) > 0xff,
        ac: a % 16 + b % 16 + flag(cy) > 0xf,
        ..cc.with_zsp(wrap8(a + b + flag(cy)))
    }
}

/// The flags after the subtraction `a - b - borrow`. Carry reports a borrow out of
/// bit 7. Auxiliary-Carry is set when the low nibble did not borrow, as the
/// complement addition that the processor performs leaves it.
#[verifier::opaque]
pub open spec fn after_sub(cc: ConditionCodes, a: u8, b: u8, borrow: bool) -> ConditionCodes {
    ConditionCodes {
        cy: a < b + flag(borrow),
        ac: a % 16 >= b % 16 + flag(borrow),
        ..cc.with_zsp(wrap8(a - b - flag(borrow)))
    }
}

/// The flags after `v` was incremented: Carry is kept.
#[verifier::opaque]
pub open spec fn after_inr(cc: ConditionCodes, v: u8) -> ConditionCodes {
    ConditionCodes { ac: v % 16 == 15, ..cc.with_zsp(wrap8(v + 1)) }
}

/// The flags after `v` was decremented: Carry is kept, and Auxiliary-Carry is set
/// when the low nibble did not borrow.
#[verifier::opaque]
pub open spec fn after_dcr(cc: ConditionCodes, v: u8) -> ConditionCodes {
    ConditionCodes { ac: v % 16 != 0, ..cc.with_zsp(wrap8(v - 1)) }
}

/// The flags after a logical operation gave `result`: Carry clear, Auxiliary-Carry as given.
#[verifier::opaque]
pub open spec fn after_logic(cc: ConditionCodes, result: u8, ac: bool) -> ConditionCodes {
    ConditionCodes { cy: false, ac, ..cc.with_zsp(result) }
}

/// Subtracting is adding the complement: the sum `a + (255 - b) + 1 - borrow`
/// has the low byte of `a - b - borrow`, carries out of bit 7 exactly when the
/// subtraction does not borrow, and carries out of bit 3 exactly when the low
/// nibble does not borrow.
pub proof fn lemma_sub_is_complement_add(cc: ConditionCodes, a: u8, b: u8, borrow: bool)
    ensures
        wrap8(a + (255 - b) + flag(!borrow)) == wrap8(a - b - flag(borrow)),
        after_sub(cc, a, b, borrow) == (ConditionCodes {
            cy: !after_add(cc, a, (255 - b) as u8, !borrow).cy,
            ..after_add(cc, a, (255 - b) as u8, !borrow)
        }),
{
    reveal(after_add);
    reveal(after_sub);
    let n = a - b - flag(borrow);
    assert((n + 256) % 256 == n % 256) by {
        vstd::arithmetic::div_mod::lemma_mod_add_multiples_vanish(n, 256);
    }
    assert((255 - b) % 16 == 15 - b % 16);
}

/// NOP: does nothing.
pub fn nop() {
}

/// LXI: loads a register pair with the two bytes that follow the opcode at `pc`,
/// the first into `low`, the second into `high`.
pub fn lxi(high: &mut u8, low: &mut u8, pc: &usize, memory: &Memory)
    requires
        readable(*pc + 2),
    ensures
        *final(high) == memory@[*pc + 2],
        *final(low) == memory@[*pc + 1],
{
    *high = memory.memory[*pc + 2];
    *low = memory.memory[*pc + 1];
}

/// INR: adds 1 to `register`, wrapping at 0xff. Zero, Sign, Parity and
/// Auxiliary-Carry follow the result; Carry is not touched.
pub fn inr(register: &mut u8, cc: &mut ConditionCodes)
    ensures
        *final(register) == wrap8(*old(register) + 1),
        *final(cc) == after_inr(*old(cc), *old(register)),
        final(cc).cy == old(cc).cy,
{
    proof {
        reveal(after_inr);
    }
    *register = register.wrapping_add(1);
    cc.set_zsp(&u16::from(*register));
    cc.ac = *register % 16 == 0;
}

/// DCR: subtracts 1 from `register`, wrapping at 0. Zero, Sign, Parity and
/// Auxiliary-Carry follow the result; Carry is not touched.
pub fn dcr(register: &mut u8, cc: &mut ConditionCodes)
    ensures
        *final(register) == wrap8(*old(register) - 1),
        *final(cc) == after_dcr(*old(cc), *old(register)),
        final(cc).cy == old(cc).cy,
{
    proof {
        reveal(after_dcr);
    }
    *register = register.wrapping_sub(1);
    cc.set_zsp(&u16::from(*register));
    cc.ac = *register % 16 != 15;
}

/// INX: adds 1 to the register pair, modulo 65536: when the low byte wraps to 0
/// the high byte goes up by one.
pub fn inx(high: &mut u8, low: &mut u8)
    ensures
        word(*final(high), *final(low)) == wrap16(word(*old(high), *old(low)) + 1),
{
    *low = low.wrapping_add(1);
    if *low == 0 {
        *high = high.wrapping_add(1);
    }
}

/// DAD: adds the pair `high`,`low` to the pair `h`,`l`, modulo 65536. Carry is set
/// when the sum does not fit in 16 bits; no other flag changes.
pub fn dad(h: &mut u8, l: &mut u8, high: &u8, low: &u8, cc: &mut ConditionCodes)
    ensures
        word(*final(h), *final(l)) == wrap16(word(*old(h), *old(l)) + word(*high, *low)),
        *final(cc) == (ConditionCodes {
            cy: word(*old(h), *old(l)) + word(*high, *low) > 0xffff,
            ..*old(cc)
        }),
{
    let hl: u32 = u32::from(make_word(*h, *l)) + u32::from(make_word(*high, *low));
    let sum: u16 = (hl % 0x10000) as u16;
    *h = high_byte(sum);
    *l = low_byte(sum);
    cc.cy = hl > 0xffff;
}

/// DCX: subtracts 1 from the register pair, modulo 65536: when the low byte wraps
/// to 0xff the high byte goes down by one.
pub fn dcx(high: &mut u8, low: &mut u8)
    ensures
        word(*final(high), *final(low)) == wrap16(word(*old(high), *old(low)) - 1),
{
    *low = low.wrapping_sub(1);
    if *low == 0xff {
        *high = high.wrapping_sub(1);
    }
}

/// STAX: stores `register` at the address in the pair `high`,`low`, and says
/// whether the memory took it. A store outside RAM changes nothing.
pub fn stax(register: &u8, high: &u8, low: &u8, memory: &mut Memory) -> (ok: bool)
    ensures
        ok == writable(word(*high, *low) as int),
        final(memory)@ == written(old(memory)@, word(*high, *low) as int, *register),
{
    memory.write(make_word(*high, *low), *register)
}

/// LDAX: loads `register` from the address in the pair `high`,`low`.
pub fn ldax(register: &mut u8, high: &u8, low: &u8, memory: &Memory)
    requires
        readable(word(*high, *low) as int),
    ensures
        *final(register) == memory@[word(*high, *low) as int],
{
    *register = memory.read(make_word(*high, *low));
}

/// MVI: loads `register` with the byte that follows the opcode at `pc`.
pub fn mvi(register: &mut u8, memory: &Memory, pc: &usize)
    requires
        readable(*pc + 1),
    ensures
        *final(register) == memory@[*pc + 1],
{
    *register = memory.memory[*pc + 1];
}

/// MOV: copies `sregister` to `tregister`.
pub fn mov(tregister: &mut u8, sregister: &u8)
    ensures
        *final(tregister) == *sregister,
{
    *tregister = *sregister;
}

/// ADD and ADC: adds `sregister` and the carry `cy` to `tregister`, modulo 256.
/// Carry is set when the sum exceeds 0xff, Auxiliary-Carry when the low nibbles
/// carry into bit 4; Zero, Sign and Parity follow the result.
pub fn add_adc(tregister: &mut u8, sregister: &u8, cy: bool, cc: &mut ConditionCodes)
    ensures
        *final(tregister) == wrap8(*old(tregister) + *sregister + flag(cy)),
        *final(cc) == after_add(*old(cc), *old(tregister), *sregister, cy),
{
    proof {
        reveal(after_add);
    }
    let a: u8 = *tregister;
    let carry_in: u16 = if cy { 1 } else { 0 };
    let result: u16 = u16::from(a) + u16::from(*sregister) + carry_in;
    cc.set_zsp(&result);
    cc.set_cy(a, *sregister, cy);
    cc.set_ac(a, *sregister, cy);
    *tregister = low_byte(result);
}

/// ADD: adds `sregister` to `tregister`, modulo 256. Carry is set exactly when the
/// sum exceeds 255.
pub fn add(tregister: &mut u8, sregister: &u8, cc: &mut ConditionCodes)
    ensures
        *final(tregister) == wrap8(*old(tregister) + *sregister),
        *final(tregister) == (*old(tregister) + *sregister) % 256,
        final(cc).cy == (*old(tregister) + *sregister > 255),
        *final(cc) == after_add(*old(cc), *old(tregister), *sregister, false),
{
    proof {
        reveal(after_add);
    }
    add_adc(tregister, sregister, false, cc);
}

/// ANA: ands `sregister` into `tregister`. Carry is cleared; Auxiliary-Carry is
/// set when bit 3 of either operand was set.
pub fn ana(tregister: &mut u8, sregister: &u8, cc: &mut ConditionCodes)
    ensures
        *final(tregister) == *old(tregister) & *sregister,
        *final(cc) == after_logic(
            *old(cc),
            *old(tregister) & *sregister,
            bit(*old(tregister) | *sregister, 3),
        ),
{
    proof {
        reveal(after_logic);
    }
    let result: u8 = *tregister & *sregister;
    cc.cy = false;
    cc.ac = test_bit(*tregister | *sregister, 3);
    cc.set_zsp(&u16::from(result));
    *tregister = result;
}

/// XRA: exclusive-ors `sregister` into `tregister`. Carry and Auxiliary-Carry are cleared.
pub fn xra(tregister: &mut u8, sregister: &u8, cc: &mut ConditionCodes)
    ensures
        *final(tregister) == *old(tregister) ^ *sregister,
        *final(cc) == after_logic(*old(cc), *old(tregister) ^ *sregister, false),
{
    proof {
        reveal(after_logic);
    }
    *tregister = *tregister ^ *sregister;
    cc.cy = false;
    cc.ac = false;
    cc.set_zsp(&u16::from(*tregister));
}

/// ORA: ors `sregister` into `tregister`. Carry and Auxiliary-Carry are cleared.
pub fn ora(tregister: &mut u8, sregister: &u8, cc: &mut ConditionCodes)
    ensures
        *final(tregister) == *old(tregister) | *sregister,
        *final(cc) == after_logic(*old(cc), *old(tregister) | *sregister, false),
{
    proof {
        reveal(after_logic);
    }
    *tregister = *tregister | *sregister;
    cc.cy = false;
    cc.ac = false;
    cc.set_zsp(&u16::from(*tregister));
}

/// CMP: sets the flags as the subtraction `tregister - sregister` would and leaves
/// both registers as they were. Zero reports equality, Carry that `tregister` is
/// the smaller.
pub fn cmp(tregister: &mut u8, sregister: &u8, cc: &mut ConditionCodes)
    ensures
        *final(tregister) == *old(tregister),
        *final(cc) == after_sub(*old(cc), *old(tregister), *sregister, false),
        final(cc).z == (*old(tregister) == *sregister),
        final(cc).cy == (*old(tregister) < *sregister),
{
    proof {
        reveal(after_sub);
    }
    let a: u8 = *tregister;
    let b: u8 = *sregister;
    let result: u8 = a.wrapping_sub(b);
    cc.set_zsp(&u16::from(result));
    cc.cy = a < b;
    cc.ac = a % 16 >= b % 16;
}

/// Sets the flags that the intermediate `val` shows: Zero, Sign and Parity from
/// its low byte, Carry when it exceeds 0xff. Auxiliary-Carry is kept.
pub fn set_arithmetic_flags(cc: &mut ConditionCodes, val: &u16)
    ensures
        *final(cc) == (ConditionCodes { cy: *val > 0xff, ..old(cc).with_zsp(low(*val)) }),
        final(cc).ac == old(cc).ac,
{
    cc.set_arithmetic_flags(val, true);
}

} // verus!
