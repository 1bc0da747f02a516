//! What a post-mortem needs: the instruction that is about to run, and the
//! memory as text.

use crate::cpu::bits::{high, high_byte, low, low_byte};
use crate::cpu::machine::Machine;
use crate::cpu::memory::readable;
use crate::cpu::state8080::State8080;
use vstd::prelude::*;

verus! {

/// The instruction that a machine is about to run, for a trace or a fault report.
#[derive(Debug)]
pub struct Instructioninfo {
    /// How many instructions ran before this one: the caller's count.
    pub instr_n: usize,
    pub opcode: u8,
    pub pc: u16,
    pub sp: u16,
    pub int_enable: bool,
}

/// The bytes of the whole dump: 1024 lines of 39, each a line feed, four digits of
/// address, two spaces, and two digits for each of 16 bytes.
pub const DUMP_LENGTH: usize = 39936;

/// The hexadecimal digit of `n`, in lower case, as a character code.
pub open spec fn hex_digit(n: int) -> u8 {
    if n < 10 {
        (48 + n) as u8
    } else {
        (87 + n) as u8
    }
}

/// The character at index `i` of the dump of `mem`.
///
/// Line `k` of the dump shows the 16 bytes from address `16 * k`.
pub open spec fn dump_char(mem: Seq<u8>, i: int) -> u8 {
    let address = 16 * (i / 39);
    let column = i % 39;
    if column == 0 {
        10
    } else if column == 1 {
        hex_digit(address / 4096)
    } else if column == 2 {
        hex_digit((address / 256) % 16)
    } else if column == 3 {
        hex_digit((address / 16) % 16)
    } else if column == 4 {
        hex_digit(0)
    } else if column <= 6 {
        32
    } else if (column - 7) % 2 == 0 {
        hex_digit(mem[address + (column - 7) / 2] as int / 16)
    } else {
        hex_digit(mem[address + (column - 7) / 2] as int % 16)
    }
}

/// The memory of the machine as text: [`DUMP_LENGTH`] characters.
pub open spec fn memory_text(mem: Seq<u8>) -> Seq<u8> {
    Seq::new(DUMP_LENGTH as nat, |i: int| dump_char(mem, i))
}

/// `pc:`
pub const LABEL_PC: [u8; 3] = [112, 99, 58];

/// A line feed and `a:`
pub const LABEL_A: [u8; 3] = [10, 97, 58];

/// ` f:`
pub const LABEL_F: [u8; 3] = [32, 102, 58];

/// ` bc:`
pub const LABEL_BC: [u8; 4] = [32, 98, 99, 58];

/// ` de:`
pub const LABEL_DE: [u8; 4] = [32, 100, 101, 58];

/// ` hl:`
pub const LABEL_HL: [u8; 4] = [32, 104, 108, 58];

/// ` sp:`
pub const LABEL_SP: [u8; 4] = [32, 115, 112, 58];

/// A line feed and `cycles:`
pub const LABEL_CYCLES: [u8; 8] = [10, 99, 121, 99, 108, 101, 115, 58];

/// A line feed and the rule above the memory: `------memdump------`
pub const RULE: [u8; 20] = [
    10, 45, 45, 45, 45, 45, 45, 109, 101, 109, 100, 117, 109, 112, 45, 45, 45, 45, 45, 45,
];

/// The byte `v` in two hexadecimal digits.
pub open spec fn hex_byte(v: u8) -> Seq<u8> {
    seq![hex_digit(v as int / 16), hex_digit(v as int % 16)]
}

/// The word `v` in four hexadecimal digits.
pub open spec fn hex_word(v: u16) -> Seq<u8> {
    hex_byte(high(v)) + hex_byte(low(v))
}

/// The natural number `n` in decimal digits, without leading zeroes.
pub open spec fn decimal_digits(n: nat) -> Seq<u8>
    decreases n,
{
    if n < 10 {
        seq![(48 + n) as u8]
    } else {
        decimal_digits(n / 10).push((48 + n % 10) as u8)
    }
}

/// The integer `n` in decimal, with a minus sign when it is negative.
pub open spec fn decimal(n: int) -> Seq<u8> {
    if n < 0 {
        seq![45u8] + decimal_digits((-n) as nat)
    } else {
        decimal_digits(n as nat)
    }
}

/// The state of the machine `m` as text.
pub open spec fn dump_text(m: Machine) -> Seq<u8> {
    LABEL_PC@ + hex_word(m.pc) + LABEL_A@ + hex_byte(m.a) + LABEL_F@ + hex_byte(m.cc.psw())
        + LABEL_BC@ + hex_word(m.bc()) + LABEL_DE@ + hex_word(m.de()) + LABEL_HL@ + hex_word(
        m.hl(),
    ) + LABEL_SP@ + hex_word(m.sp) + LABEL_CYCLES@ + decimal(m.cycles) + RULE@ + memory_text(
        m.memory,
    )
}

/// Appends `bytes` to `text`.
pub fn push_bytes(text: &mut Vec<u8>, bytes: &[u8])
    ensures
        final(text)@ == old(text)@ + bytes@,
{
    let mut i: usize = 0;
    while i < bytes.len()
        invariant
            i <= bytes@.len(),
            text@ == old(text)@ + bytes@.subrange(0, i as int),
        decreases bytes@.len() - i,
    {
        text.push(bytes[i]);
        i += 1;
        assert(text@ =~= old(text)@ + bytes@.subrange(0, i as int));
    }
    assert(bytes@.subrange(0, i as int) =~= bytes@);
}

/// Appends the byte `v` in two hexadecimal digits.
pub fn push_hex_byte(text: &mut Vec<u8>, v: u8)
    ensures
        final(text)@ == old(text)@ + hex_byte(v),
{
    text.push(hex(v / 16));
    text.push(hex(v % 16));
    assert(text@ =~= old(text)@ + hex_byte(v));
}

/// Appends the word `v` in four hexadecimal digits.
pub fn push_hex_word(text: &mut Vec<u8>, v: u16)
    ensures
        final(text)@ == old(text)@ + hex_word(v),
{
    push_hex_byte(text, high_byte(v));
    push_hex_byte(text, low_byte(v));
    assert(text@ =~= old(text)@ + hex_word(v));
}

/// Appends the integer `n` in decimal.
pub fn push_decimal(text: &mut Vec<u8>, n: isize)
    ensures
        final(text)@ == old(text)@ + decimal(n as int),
{
    let magnitude: u128 = if n < 0 {
        text.push(45);
        (-(n as i128)) as u128
    } else {
        n as u128
    };
    let ghost before = text@;
    let mut buffer: [u8; 40] = [0u8; 40];
    let mut at: usize = 40;
    let mut rest: u128 = magnitude;
    assert(rest * pow10(0) == rest) by (nonlinear_arith)
        requires
            pow10(0) == 1,
    ;
    assert(buffer@.subrange(40, 40) =~= Seq::<u8>::empty());
    while rest >= 10
        invariant
            1 <= at <= 40,
            40 - at <= 39,
            rest * pow10((40 - at) as nat) <= magnitude,
            decimal_digits(magnitude as nat) == decimal_digits(rest as nat) + buffer@.subrange(
                at as int,
                40,
            ),
        decreases rest,
    {
        proof {
            lemma_pow10_step(rest as nat, (40 - at) as nat, magnitude as nat);
        }
        at -= 1;
        let digit: u8 = 48 + (rest % 10) as u8;
        let ghost old_buffer = buffer@;
        buffer[at] = digit;
        assert(buffer@.subrange(at as int, 40) =~= seq![digit] + old_buffer.subrange(
            at as int + 1,
            40,
        ));
        assert(decimal_digits(rest as nat) == decimal_digits((rest / 10) as nat).push(digit));
        assert(decimal_digits((rest / 10) as nat).push(digit) + old_buffer.subrange(
            at as int + 1,
            40,
        ) =~= decimal_digits((rest / 10) as nat) + (seq![digit] + old_buffer.subrange(
            at as int + 1,
            40,
        )));
        rest = rest / 10;
    }
    text.push(48 + rest as u8);
    assert(text@ =~= before + decimal_digits(rest as nat));
    let mut i: usize = at;
    while i < 40
        invariant
            at <= i <= 40,
            text@ == before + decimal_digits(rest as nat) + buffer@.subrange(at as int, i as int),
        decreases 40 - i,
    {
        text.push(buffer[i]);
        i += 1;
        assert(text@ =~= before + decimal_digits(rest as nat) + buffer@.subrange(
            at as int,
            i as int,
        ));
    }
    assert(text@ =~= before + (decimal_digits(rest as nat) + buffer@.subrange(at as int, 40)));
    assert(text@ =~= old(text)@ + decimal(n as int));
}

/// Ten to the power `k`.
pub open spec fn pow10(k: nat) -> nat
    decreases k,
{
    if k == 0 {
        1
    } else {
        10 * pow10((k - 1) as nat)
    }
}

/// A number that still has a digit to give after `k` digits were taken from a
/// 128-bit magnitude has given fewer than 39.
proof fn lemma_pow10_step(rest: nat, k: nat, magnitude: nat)
    requires
        rest >= 10,
        rest * pow10(k) <= magnitude,
        magnitude <= u128::MAX,
        k <= 39,
    ensures
        k < 39,
        (rest / 10) * pow10(k + 1) <= magnitude,
{
    assert(pow10(k + 1) == 10 * pow10(k));
    assert((rest / 10) * (10 * pow10(k)) <= rest * pow10(k)) by (nonlinear_arith)
        requires
            rest >= 0,
            pow10(k) >= 0,
    ;
    if k == 39 {
        lemma_pow10_39();
        assert(rest * pow10(39) >= 10 * pow10(39)) by (nonlinear_arith)
            requires
                rest >= 10,
        ;
    }
}

proof fn lemma_pow10_39()
    ensures
        pow10(39) == 1000000000000000000000000000000000000000,
{
    reveal_with_fuel(pow10, 40);
}

/// The character code of the hexadecimal digit `n`.
pub fn hex(n: u8) -> (c: u8)
    requires
        n < 16,
    ensures
        c == hex_digit(n as int),
{
    if n < 10 {
        48 + n
    } else {
        87 + n
    }
}

impl State8080 {
    /// The instruction that stands at the program counter, numbered `instr_n`;
    /// `None` when the program counter has left the address space.
    pub fn next_instruction(&self, instr_n: usize) -> (info: Option<Instructioninfo>)
        ensures
            info is Some == readable(self.pc as int),
            info matches Some(i) ==> i.instr_n == instr_n && i.opcode == self@.memory[self.pc as int]
                && i.pc == self.pc && i.sp == self.sp && i.int_enable == self.int_enable,
    {
        if self.pc < 0x4000 {
            Some(
                Instructioninfo {
                    instr_n,
                    opcode: self.memory.read(self.pc),
                    pc: self.pc,
                    sp: self.sp,
                    int_enable: self.int_enable,
                },
            )
        } else {
            None
        }
    }

    /// The memory as text, in ASCII: for every 16 bytes a line that starts with
    /// a line feed, the address in four hexadecimal digits and two spaces, and
    /// goes on with the bytes in two digits each, nothing between them.
    pub fn memory_lines(&self) -> (text: Vec<u8>)
        ensures
            text@ == memory_text(self@.memory),
    {
        let mut text: Vec<u8> = Vec::new();
        let mut line: usize = 0;
        while line < 1024
            invariant
                line <= 1024,
                text@.len() == 39 * line,
                forall|i: int| 0 <= i < text@.len() ==> text@[i] == dump_char(self@.memory, i),
            decreases 1024 - line,
        {
            let address: usize = 16 * line;
            proof {
                let start = 39 * line;
                assert(forall|c: int|
                    0 <= c < 39 ==> #[trigger] ((start + c) / 39) == line && (start + c) % 39 == c)
                    by (nonlinear_arith)
                    requires
                        start == 39 * line,
                ;
            }
            text.push(10);
            text.push(hex((address / 4096) as u8));
            text.push(hex(((address / 256) % 16) as u8));
            text.push(hex(((address / 16) % 16) as u8));
            text.push(hex(0));
            text.push(32);
            text.push(32);
            let mut k: usize = 0;
            while k < 16
                invariant
                    k <= 16,
                    line < 1024,
                    address == 16 * line,
                    text@.len() == 39 * line + 7 + 2 * k,
                    forall|c: int|
                        0 <= c < 39 ==> #[trigger] ((39 * line + c) / 39) == line && (39 * line + c)
                            % 39 == c,
                    forall|i: int|
                        0 <= i < text@.len() ==> text@[i] == dump_char(self@.memory, i),
                decreases 16 - k,
            {
                let byte: u8 = self.memory.memory[address + k];
                proof {
                    let c1 = 7 + 2 * k;
                    let c2 = 8 + 2 * k;
                    assert((39 * line + c1) / 39 == line && (39 * line + c1) % 39 == c1);
                    assert((39 * line + c2) / 39 == line && (39 * line + c2) % 39 == c2);
                }
                text.push(hex(byte / 16));
                text.push(hex(byte % 16));
                k += 1;
            }
            line += 1;
        }
        assert(text@ =~= memory_text(self@.memory));
        text
    }

    /// The state of the machine as text, in ASCII, for a post-mortem: the program
    /// counter, the registers with the status byte and the stack pointer, the
    /// cycle counter, and under a rule the memory as [`State8080::memory_lines`]
    /// writes it. Registers are in hexadecimal, bytes in two digits and words in
    /// four; the cycle counter is in decimal.
    pub fn dump_memory(&self) -> (text: Vec<u8>)
        ensures
            text@ == dump_text(self@),
    {
        let mut text: Vec<u8> = Vec::new();
        push_bytes(&mut text, LABEL_PC.as_slice());
        push_hex_word(&mut text, self.pc);
        push_bytes(&mut text, LABEL_A.as_slice());
        push_hex_byte(&mut text, self.a);
        push_bytes(&mut text, LABEL_F.as_slice());
        push_hex_byte(&mut text, self.cc.get_f());
        push_bytes(&mut text, LABEL_BC.as_slice());
        push_hex_word(&mut text, self.get_bc());
        push_bytes(&mut text, LABEL_DE.as_slice());
        push_hex_word(&mut text, self.get_de());
        push_bytes(&mut text, LABEL_HL.as_slice());
        push_hex_word(&mut text, self.get_hl());
        push_bytes(&mut text, LABEL_SP.as_slice());
        push_hex_word(&mut text, self.sp);
        push_bytes(&mut text, LABEL_CYCLES.as_slice());
        push_decimal(&mut text, self.cycles);
        push_bytes(&mut text, RULE.as_slice());
        let lines = self.memory_lines();
        push_bytes(&mut text, lines.as_slice());
        text
    }
}

} // verus!
