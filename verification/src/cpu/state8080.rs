//! The processor state and the instruction engine that works on it.

use crate::cpu::bits::{high_byte, low_byte, make_word, test_bit, word, wrap16, wrap8};
use crate::cpu::flags::ConditionCodes;
use crate::cpu::instructions;
use crate::cpu::machine::{Event, Fault, Machine, HALF_FRAME};
use crate::cpu::memory::{readable, writable, Memory};
use crate::cpu::opcode::{
    cycles, decode, AluOp, Condition, Instruction, Pair, Register, StackPair, MAX_COST,
};
use crate::cpu::special::Special;
use vstd::prelude::*;

verus! {

/// The processor with its memory and its devices.
pub struct State8080 {
    pub a: u8,
    pub b: u8,
    pub c: u8,
    pub d: u8,
    pub e: u8,
    pub h: u8,
    pub l: u8,
    pub sp: u16,
    pub pc: u16,
    pub memory: Memory,
    pub cc: ConditionCodes,
    /// Whether the processor accepts interrupts.
    pub int_enable: bool,
    /// Which of the two interrupts of a frame comes next: false for the one in
    /// mid-frame, true for the one at the end.
    pub int_type: bool,
    /// Clock cycles used of the current half frame.
    pub cycles: isize,
    pub special: Special,
}

impl View for State8080 {
    type V = Machine;

    open spec fn view(&self) -> Machine {
        Machine {
            a: self.a,
            b: self.b,
            c: self.c,
            d: self.d,
            e: self.e,
            h: self.h,
            l: self.l,
            sp: self.sp,
            pc: self.pc,
            memory: self.memory@,
            cc: self.cc,
            int_enable: self.int_enable,
            int_type: self.int_type,
            cycles: self.cycles as int,
            special: self.special,
        }
    }
}

impl State8080 {
    /// The machine that this state stands for is well formed: the shift offset
    /// has its three bits.
    pub open spec fn wf(&self) -> bool {
        self@.wf()
    }

    /// The machine at power-on: registers, flags and memory zero, interrupts disabled.
    pub fn new() -> (s: State8080)
        ensures
            s.wf(),
            s@ == (Machine {
                a: 0,
                b: 0,
                c: 0,
                d: 0,
                e: 0,
                h: 0,
                l: 0,
                sp: 0,
                pc: 0,
                memory: Seq::new(0x4000, |i: int| 0u8),
                cc: ConditionCodes { s: false, z: false, ac: false, p: false, cy: false },
                int_enable: false,
                int_type: false,
                cycles: 0,
                special: Special { shift_offset: 0, shift0: 0, shift1: 0 },
            }),
    {
        State8080 {
            a: 0,
            b: 0,
            c: 0,
            d: 0,
            e: 0,
            h: 0,
            l: 0,
            sp: 0,
            pc: 0,
            memory: Memory::new(),
            cc: ConditionCodes::new(),
            int_enable: false,
            int_type: false,
            cycles: 0,
            special: Special::new(),
        }
    }

    /// The accumulator above the status byte.
    pub fn get_af(&self) -> (v: u16)
        ensures
            v == self@.af(),
    {
        make_word(self.a, self.cc.get_f())
    }

    /// Loads the accumulator from the high byte of `val` and the flags from its low byte.
    pub fn set_af(&mut self, val: u16)
        ensures
            final(self)@ == old(self)@.with_af(val),
    {
        self.a = high_byte(val);
        self.cc.set_f(low_byte(val));
    }

    /// The register pair BC: B above C.
    pub fn get_bc(&self) -> (v: u16)
        ensures
            v == self@.bc(),
    {
        make_word(self.b, self.c)
    }

    /// Loads B from the high byte of `val` and C from its low byte.
    pub fn set_bc(&mut self, val: u16)
        ensures
            final(self)@ == old(self)@.with_bc(val),
    {
        self.b = high_byte(val);
        self.c = low_byte(val);
    }

    /// The register pair DE: D above E.
    pub fn get_de(&self) -> (v: u16)
        ensures
            v == self@.de(),
    {
        make_word(self.d, self.e)
    }

    /// Loads D from the high byte of `val` and E from its low byte.
    pub fn set_de(&mut self, val: u16)
        ensures
            final(self)@ == old(self)@.with_de(val),
    {
        self.d = high_byte(val);
        self.e = low_byte(val);
    }

    /// The register pair HL: H above L.
    pub fn get_hl(&self) -> (v: u16)
        ensures
            v == self@.hl(),
            v == self.h * 256 + self.l,
    {
        make_word(self.h, self.l)
    }

    /// Loads H from the high byte of `val` and L from its low byte.
    pub fn set_hl(&mut self, val: u16)
        ensures
            final(self)@ == old(self)@.with_hl(val),
    {
        self.h = high_byte(val);
        self.l = low_byte(val);
    }

    /// Copies a program image into the addresses `start` to `end`, both included,
    /// read-only memory too. The image must fill the region: a shorter one is
    /// refused and nothing is copied; of a longer one the surplus is left out.
    pub fn load_rom(&mut self, start: usize, end: usize, bytes: &[u8]) -> (loaded: bool)
        requires
            start <= end < 0x4000,
        ensures
            loaded == (bytes@.len() >= end - start + 1),
            loaded ==> final(self)@ == (Machine {
                memory: Seq::new(
                    0x4000,
                    |i: int|
                        if start <= i <= end {
                            bytes@[i - start]
                        } else {
                            old(self)@.memory[i]
                        },
                ),
                ..old(self)@
            }),
            !loaded ==> final(self)@ == old(self)@,
    {
        let count: usize = end - start + 1;
        if bytes.len() < count {
            return false;
        }
        let mut k: usize = 0;
        while k < count
            invariant
                k <= count,
                count == end - start + 1,
                start <= end < 0x4000,
                bytes@.len() >= count,
                self@ == (Machine { memory: self@.memory, ..old(self)@ }),
                self@.memory.len() == 0x4000,
                forall|i: int|
                    0 <= i < 0x4000 ==> self@.memory[i] == (if start <= i < start + k {
                        bytes@[i - start]
                    } else {
                        old(self)@.memory[i]
                    }),
            decreases count - k,
        {
            self.memory.memory[start + k] = bytes[k];
            k += 1;
        }
        true
    }

    /// Reads the byte at the program counter and moves the counter past it.
    pub fn read_next(&mut self) -> (val: u8)
        requires
            readable(old(self).pc as int),
        ensures
            val == old(self)@.memory[old(self).pc as int],
            final(self)@ == (Machine { pc: (old(self).pc + 1) as u16, ..old(self)@ }),
    {
        let result = self.memory.read(self.pc);
        self.pc += 1;
        result
    }

    /// Reads the little-endian word at the program counter and moves the counter past it.
    pub fn read_next_word(&mut self) -> (val: u16)
        requires
            readable(old(self).pc + 1),
        ensures
            val == crate::cpu::memory::word_at(old(self)@.memory, old(self).pc as int),
            final(self)@ == (Machine { pc: (old(self).pc + 2) as u16, ..old(self)@ }),
    {
        let result = self.memory.read_word(self.pc);
        self.pc += 2;
        result
    }

    /// Reads the word at the program counter into `h` and `l` and moves the counter past it.
    pub fn read_next_word_as_u8(&mut self, h: &mut u8, l: &mut u8)
        requires
            readable(old(self).pc + 1),
        ensures
            *final(l) == old(self)@.memory[old(self).pc as int],
            *final(h) == old(self)@.memory[old(self).pc + 1],
            final(self)@ == (Machine { pc: (old(self).pc + 2) as u16, ..old(self)@ }),
    {
        self.memory.read_word_as_u8(self.pc, h, l);
        self.pc += 2;
    }

    /// Writes `val` at the program counter, says whether the memory took it, and
    /// moves the counter past it either way.
    pub fn write_next(&mut self, val: u8) -> (ok: bool)
        requires
            old(self).pc < 0xffff,
        ensures
            ok == writable(old(self).pc as int),
            final(self)@ == (Machine {
                pc: (old(self).pc + 1) as u16,
                ..old(self)@.stored(old(self).pc, val)
            }),
    {
        let result = self.memory.write(self.pc, val);
        self.pc += 1;
        result
    }

    /// Writes `val_l` and `val_h` at the program counter, low byte first, says
    /// whether the memory took both, and moves the counter past them either way.
    pub fn write_next_word(&mut self, val_h: u8, val_l: u8) -> (ok: bool)
        requires
            old(self).pc < 0xfffe,
        ensures
            ok == (writable(old(self).pc as int) && writable(old(self).pc + 1)),
            final(self)@ == (Machine {
                pc: (old(self).pc + 2) as u16,
                ..old(self)@.word_stored(old(self).pc, word(val_h, val_l))
            }),
    {
        proof {
            crate::cpu::bits::lemma_parts_of_word(val_h, val_l);
        }
        let result = self.memory.write_word(self.pc, val_h, val_l);
        self.pc += 2;
        result
    }

    /// Writes the word `val` at the program counter, says whether the memory took
    /// it, and moves the counter past it either way.
    pub fn write_next_word_with_u16(&mut self, val: u16) -> (ok: bool)
        requires
            old(self).pc < 0xfffe,
        ensures
            ok == (writable(old(self).pc as int) && writable(old(self).pc + 1)),
            final(self)@ == (Machine {
                pc: (old(self).pc + 2) as u16,
                ..old(self)@.word_stored(old(self).pc, val)
            }),
    {
        let result = self.memory.write_word_with_u16(self.pc, val);
        self.pc += 2;
        result
    }

    /// NOP: does nothing.
    pub fn nop(&self) {
    }

    /// INR: the flags follow `register + 1`, which is returned. Carry is kept.
    pub fn inr(&mut self, register: u8) -> (result: u8)
        ensures
            result == wrap8(register + 1),
            final(self)@ == (Machine {
                cc: instructions::after_inr(old(self).cc, register),
                ..old(self)@
            }),
    {
        let mut value: u8 = register;
        instructions::inr(&mut value, &mut self.cc);
        value
    }

    /// INR on a byte of memory: as [`State8080::inr`].
    pub fn inr_m(&mut self, val: u8) -> (result: u8)
        ensures
            result == wrap8(val + 1),
            final(self)@ == (Machine {
                cc: instructions::after_inr(old(self).cc, val),
                ..old(self)@
            }),
    {
        self.inr(val)
    }

    /// DCR: the flags follow `register - 1`, which is returned. Carry is kept.
    pub fn dcr(&mut self, register: u8) -> (result: u8)
        ensures
            result == wrap8(register - 1),
            final(self)@ == (Machine {
                cc: instructions::after_dcr(old(self).cc, register),
                ..old(self)@
            }),
    {
        let mut value: u8 = register;
        instructions::dcr(&mut value, &mut self.cc);
        value
    }

    /// DCR on a byte of memory: as [`State8080::dcr`].
    pub fn dcr_m(&mut self, val: u8) -> (result: u8)
        ensures
            result == wrap8(val - 1),
            final(self)@ == (Machine {
                cc: instructions::after_dcr(old(self).cc, val),
                ..old(self)@
            }),
    {
        self.dcr(val)
    }

    /// RLC: rotates the accumulator left by one bit. Bit 7 goes to bit 0 and to Carry.
    pub fn rlc(&mut self)
        ensures
            final(self)@ == old(self)@.rotated(Instruction::Rlc),
    {
        proof {
            lemma_rotate_left(self.a);
        }
        self.cc.cy = test_bit(self.a, 7);
        self.a = (self.a >> 7) | (self.a << 1);
    }

    /// RRC: rotates the accumulator right by one bit. Bit 0 goes to bit 7 and to Carry.
    pub fn rrc(&mut self)
        ensures
            final(self)@ == old(self)@.rotated(Instruction::Rrc),
    {
        proof {
            lemma_rotate_right(self.a);
        }
        self.cc.cy = test_bit(self.a, 0);
        self.a = (self.a << 7) | (self.a >> 1);
    }

    /// RAL: rotates the accumulator left through Carry. Bit 7 goes to Carry and
    /// the old Carry to bit 0.
    pub fn ral(&mut self)
        ensures
            final(self)@ == old(self)@.rotated(Instruction::Ral),
    {
        let cy: u8 = if self.cc.cy { 1 } else { 0 };
        proof {
            lemma_rotate_left_through(self.a, cy);
        }
        self.cc.cy = test_bit(self.a, 7);
        self.a = (self.a << 1) | cy;
    }

    /// RAR: rotates the accumulator right through Carry. Bit 0 goes to Carry and
    /// the old Carry to bit 7.
    pub fn rar(&mut self)
        ensures
            final(self)@ == old(self)@.rotated(Instruction::Rar),
    {
        let cy: u8 = if self.cc.cy { 1 } else { 0 };
        proof {
            lemma_rotate_right_through(self.a, cy);
        }
        self.cc.cy = test_bit(self.a, 0);
        self.a = (self.a >> 1) | (cy << 7);
    }

    /// DAD: adds `val` to HL, modulo 65536. Carry is set when the sum does not
    /// fit in 16 bits; no other flag changes.
    pub fn dad(&mut self, val: u16)
        ensures
            final(self)@ == old(self)@.double_added(val),
    {
        proof {
            crate::cpu::bits::lemma_word_parts(val);
            crate::cpu::bits::lemma_word_parts(wrap16(old(self)@.hl() + val));
        }
        let high: u8 = high_byte(val);
        let low: u8 = low_byte(val);
        instructions::dad(&mut self.h, &mut self.l, &high, &low, &mut self.cc);
    }

    /// ADD and ADC: adds `sregister` and the carry `cy` to the accumulator.
    pub fn add_adc(&mut self, sregister: u8, cy: bool)
        ensures
            final(self)@ == (Machine {
                a: wrap8(old(self).a + sregister + crate::cpu::bits::flag(cy)),
                cc: instructions::after_add(old(self).cc, old(self).a, sregister, cy),
                ..old(self)@
            }),
    {
        instructions::add_adc(&mut self.a, &sregister, cy, &mut self.cc);
    }

    /// ADD: adds `sregister` to the accumulator, modulo 256. Carry is set exactly
    /// when the sum exceeds 255.
    pub fn add(&mut self, sregister: u8)
        ensures
            final(self)@ == old(self)@.alu(AluOp::Add, sregister),
            final(self).a == (old(self).a + sregister) % 256,
            final(self).cc.cy == (old(self).a + sregister > 255),
    {
        proof {
            reveal(instructions::after_add);
        }
        self.add_adc(sregister, false);
    }

    /// ADC: adds `sregister` and Carry to the accumulator, modulo 256.
    pub fn adc(&mut self, sregister: u8)
        ensures
            final(self)@ == old(self)@.alu(AluOp::AddCarry, sregister),
    {
        self.add_adc(sregister, self.cc.cy);
    }

    /// SUB: subtracts `sregister` from the accumulator, modulo 256, by adding its
    /// complement and 1 and inverting the carry that comes out. Carry is set
    /// exactly when the accumulator was the smaller: the subtraction borrowed.
    pub fn sub(&mut self, sregister: u8)
        ensures
            final(self)@ == old(self)@.alu(AluOp::Sub, sregister),
            final(self).a == (old(self).a - sregister) % 256,
            final(self).cc.cy == (old(self).a < sregister),
    {
        proof {
            lemma_complement(sregister);
            instructions::lemma_sub_is_complement_add(self.cc, self.a, sregister, false);
            reveal(instructions::after_sub);
        }
        self.add_adc(!sregister, true);
        self.cc.cy = !self.cc.cy;
    }

    /// SBB: subtracts `sregister` and Carry from the accumulator, modulo 256.
    /// Carry is set when the subtraction borrowed.
    pub fn sbb(&mut self, sregister: u8)
        ensures
            final(self)@ == old(self)@.alu(AluOp::SubBorrow, sregister),
    {
        proof {
            lemma_complement(sregister);
            instructions::lemma_sub_is_complement_add(self.cc, self.a, sregister, self.cc.cy);
        }
        self.add_adc(!sregister, !self.cc.cy);
        self.cc.cy = !self.cc.cy;
    }

    /// ANA: ands `val` into the accumulator. Carry is cleared; Auxiliary-Carry is
    /// set when bit 3 of the accumulator or of `val` was set.
    pub fn ana(&mut self, val: u8)
        ensures
            final(self)@ == old(self)@.alu(AluOp::And, val),
    {
        instructions::ana(&mut self.a, &val, &mut self.cc);
    }

    /// XRA: exclusive-ors `val` into the accumulator. Carry and Auxiliary-Carry are cleared.
    pub fn xra(&mut self, val: u8)
        ensures
            final(self)@ == old(self)@.alu(AluOp::Xor, val),
    {
        instructions::xra(&mut self.a, &val, &mut self.cc);
    }

    /// ORA: ors `val` into the accumulator. Carry and Auxiliary-Carry are cleared.
    pub fn ora(&mut self, val: u8)
        ensures
            final(self)@ == old(self)@.alu(AluOp::Or, val),
    {
        instructions::ora(&mut self.a, &val, &mut self.cc);
    }

    /// CMP: sets the flags as subtracting `val` from the accumulator would, and
    /// keeps the accumulator.
    pub fn cmp(&mut self, val: u8)
        ensures
            final(self)@ == old(self)@.alu(AluOp::Compare, val),
    {
        let mut a: u8 = self.a;
        instructions::cmp(&mut a, &val, &mut self.cc);
    }

    /// Pushes `val`: the stack pointer goes down by two, wrapping at 0, and the
    /// word is written where it then points, low byte first. The result says
    /// whether the memory took both bytes.
    pub fn push(&mut self, val: u16) -> (ok: bool)
        ensures
            final(self)@ == old(self)@.pushed(val),
            ok == (crate::cpu::machine::store_word_fault(
                wrap16(old(self).sp - 2) as int,
                val,
            ) is None),
    {
        self.sp = self.sp.wrapping_sub(2);
        self.memory.write_word_with_u16(self.sp, val)
    }

    /// Pops the word on top of the stack: the stack pointer goes up by two.
    pub fn pop(&mut self) -> (val: u16)
        requires
            readable(old(self).sp + 1),
        ensures
            val == old(self)@.top(),
            final(self)@ == old(self)@.popped(),
    {
        let val = self.memory.read_word(self.sp);
        self.sp += 2;
        val
    }

    /// RET: pops the program counter.
    pub fn ret(&mut self)
        requires
            readable(old(self).sp + 1),
        ensures
            final(self)@ == (Machine { pc: old(self)@.top(), ..old(self)@.popped() }),
    {
        self.pc = self.pop();
    }

    /// Returns if `cond` holds.
    pub fn cond_ret(&mut self, cond: bool)
        requires
            cond ==> readable(old(self).sp + 1),
        ensures
            final(self)@ == (if cond {
                Machine { pc: old(self)@.top(), ..old(self)@.popped() }
            } else {
                old(self)@
            }),
    {
        if cond {
            self.ret();
        }
    }

    /// JMP: continues at `index`.
    pub fn jump(&mut self, index: u16)
        ensures
            final(self)@ == (Machine { pc: index, ..old(self)@ }),
    {
        self.pc = index;
    }

    /// Reads the target that stands at the program counter and jumps to it if
    /// `cond` holds; otherwise the program continues behind the target.
    pub fn cond_jump(&mut self, cond: bool)
        requires
            readable(old(self).pc + 1),
        ensures
            final(self)@ == (Machine {
                pc: if cond {
                    crate::cpu::memory::word_at(old(self)@.memory, old(self).pc as int)
                } else {
                    (old(self).pc + 2) as u16
                },
                ..old(self)@
            }),
    {
        let index: u16 = self.read_next_word();
        if cond {
            self.jump(index);
        }
    }

    /// CALL: pushes the program counter and continues at `index`. The result says
    /// whether the memory took the return address.
    pub fn call(&mut self, index: u16) -> (ok: bool)
        ensures
            final(self)@ == (Machine { pc: index, ..old(self)@.pushed(old(self).pc) }),
            ok == (crate::cpu::machine::store_word_fault(
                wrap16(old(self).sp - 2) as int,
                old(self).pc,
            ) is None),
    {
        let ok = self.push(self.pc);
        self.jump(index);
        ok
    }

    /// Reads the target that stands at the program counter and calls it if `cond`
    /// holds: the return address is the address behind the target.
    pub fn cond_call(&mut self, cond: bool) -> (ok: bool)
        requires
            readable(old(self).pc + 1),
        ensures
            final(self)@ == (if cond {
                Machine {
                    pc: crate::cpu::memory::word_at(old(self)@.memory, old(self).pc as int),
                    ..old(self)@.pushed((old(self).pc + 2) as u16)
                }
            } else {
                Machine { pc: (old(self).pc + 2) as u16, ..old(self)@ }
            }),
            ok == (cond ==> crate::cpu::machine::store_word_fault(
                wrap16(old(self).sp - 2) as int,
                (old(self).pc + 2) as u16,
            ) is None),
    {
        let index: u16 = self.read_next_word();
        if cond {
            self.call(index)
        } else {
            true
        }
    }

    /// PUSH PSW: pushes the accumulator above the status byte.
    pub fn push_psw(&mut self) -> (ok: bool)
        ensures
            final(self)@ == old(self)@.pushed(old(self)@.af()),
            ok == (crate::cpu::machine::store_word_fault(
                wrap16(old(self).sp - 2) as int,
                old(self)@.af(),
            ) is None),
    {
        let val = self.get_af();
        self.push(val)
    }

    /// POP PSW: pops the accumulator and the flags.
    pub fn pop_psw(&mut self)
        requires
            readable(old(self).sp + 1),
        ensures
            final(self)@ == old(self)@.popped().with_af(old(self)@.top()),
    {
        let val = self.pop();
        self.set_af(val);
    }

    /// XTHL: exchanges HL with the word on top of the stack. The result says
    /// whether the memory took the bytes of HL.
    pub fn xthl(&mut self) -> (ok: bool)
        requires
            readable(old(self).sp + 1),
        ensures
            final(self)@ == old(self)@.word_stored(old(self).sp, old(self)@.hl()).with_hl(
                old(self)@.top(),
            ),
            ok == (writable(old(self).sp as int) && writable(old(self).sp + 1)),
    {
        proof {
            crate::cpu::bits::lemma_parts_of_word(self.h, self.l);
        }
        let val = self.memory.read_word(self.sp);
        let ok = self.memory.write_word(self.sp, self.h, self.l);
        self.set_hl(val);
        ok
    }

    /// XCHG: exchanges HL and DE.
    pub fn xchg(&mut self)
        ensures
            final(self)@ == old(self)@.with_hl(old(self)@.de()).with_de(old(self)@.hl()),
    {
        let de = self.get_de();
        self.set_de(self.get_hl());
        self.set_hl(de);
    }

    /// The value of the 8-bit operand `r`: a register, or the byte that HL addresses.
    pub fn reg(&self, r: Register) -> (v: u8)
        requires
            r.is_memory() ==> readable(self@.hl() as int),
        ensures
            v == self@.reg(r),
    {
        match r.register {
            0 => self.b,
            1 => self.c,
            2 => self.d,
            3 => self.e,
            4 => self.h,
            5 => self.l,
            6 => self.memory.read(self.get_hl()),
            _ => self.a,
        }
    }

    /// Puts `v` in the 8-bit operand `r`. The result is false when `r` is the byte
    /// that HL addresses and the memory refused the write.
    pub fn set_reg(&mut self, r: Register, v: u8) -> (ok: bool)
        ensures
            final(self)@ == old(self)@.with_reg(r, v),
            ok == (r.is_memory() ==> writable(old(self)@.hl() as int)),
    {
        match r.register {
            0 => {
                self.b = v;
                true
            },
            1 => {
                self.c = v;
                true
            },
            2 => {
                self.d = v;
                true
            },
            3 => {
                self.e = v;
                true
            },
            4 => {
                self.h = v;
                true
            },
            5 => {
                self.l = v;
                true
            },
            6 => {
                let addr = self.get_hl();
                self.memory.write(addr, v)
            },
            _ => {
                self.a = v;
                true
            },
        }
    }

    /// The value of the register pair `p`.
    pub fn pair(&self, p: Pair) -> (v: u16)
        ensures
            v == self@.pair(p),
    {
        match p {
            Pair::BC => self.get_bc(),
            Pair::DE => self.get_de(),
            Pair::HL => self.get_hl(),
            Pair::SP => self.sp,
        }
    }

    /// Puts `v` in the register pair `p`.
    pub fn set_pair(&mut self, p: Pair, v: u16)
        ensures
            final(self)@ == old(self)@.with_pair(p, v),
    {
        match p {
            Pair::BC => self.set_bc(v),
            Pair::DE => self.set_de(v),
            Pair::HL => self.set_hl(v),
            Pair::SP => {
                self.sp = v;
            },
        }
    }

    /// The word that PUSH writes for the pair `p`.
    pub fn stack_pair(&self, p: StackPair) -> (v: u16)
        ensures
            v == self@.stack_pair(p),
    {
        match p {
            StackPair::BC => self.get_bc(),
            StackPair::DE => self.get_de(),
            StackPair::HL => self.get_hl(),
            StackPair::PSW => self.get_af(),
        }
    }

    /// Whether the condition `c` holds of the flags.
    pub fn holds(&self, c: Condition) -> (r: bool)
        ensures
            r == self@.holds(c),
    {
        match c {
            Condition::NotZero => !self.cc.z,
            Condition::Zero => self.cc.z,
            Condition::NoCarry => !self.cc.cy,
            Condition::Carry => self.cc.cy,
            Condition::ParityOdd => !self.cc.p,
            Condition::ParityEven => self.cc.p,
            Condition::Plus => !self.cc.s,
            Condition::Minus => self.cc.s,
        }
    }

    /// Runs the arithmetic or logical operation `op` on the accumulator and `v`.
    pub fn alu(&mut self, op: AluOp, v: u8)
        ensures
            final(self)@ == old(self)@.alu(op, v),
    {
        match op {
            AluOp::Add => self.add(v),
            AluOp::AddCarry => self.adc(v),
            AluOp::Sub => self.sub(v),
            AluOp::SubBorrow => self.sbb(v),
            AluOp::And => self.ana(v),
            AluOp::Xor => self.xra(v),
            AluOp::Or => self.ora(v),
            AluOp::Compare => self.cmp(v),
        }
    }

    /// The first access that the memory would refuse of the instruction `i`, whose
    /// opcode has been fetched: `None` when `i` can run.
    #[verifier::rlimit(50)]
    pub fn fault_of(&self, i: Instruction) -> (f: Option<Fault>)
        ensures
            f == self@.fault(i),
    {
        let width: u16 = instruction_width(i);
        let fetch = if width == 2 {
            check_load(self.pc)
        } else if width == 3 {
            check_load_word(self.pc)
        } else {
            None
        };
        if fetch.is_some() {
            return fetch;
        }
        let hl: u16 = self.get_hl();
        let below: u16 = self.sp.wrapping_sub(2);
        match i {
            Instruction::Stax(p) => check_store(self.pair(p), self.a),
            Instruction::Ldax(p) => check_load(self.pair(p)),
            Instruction::Inr(r) => if r.register == 6 {
                if hl >= 0x4000 {
                    check_load(hl)
                } else {
                    check_store(hl, self.memory.read(hl).wrapping_add(1))
                }
            } else {
                None
            },
            Instruction::Dcr(r) => if r.register == 6 {
                if hl >= 0x4000 {
                    check_load(hl)
                } else {
                    check_store(hl, self.memory.read(hl).wrapping_sub(1))
                }
            } else {
                None
            },
            Instruction::Mvi(r) => if r.register == 6 {
                check_store(hl, self.memory.read(self.pc))
            } else {
                None
            },
            Instruction::Shld => check_store_word(self.memory.read_word(self.pc), hl),
            Instruction::Lhld => check_load_word(self.memory.read_word(self.pc)),
            Instruction::Sta => check_store(self.memory.read_word(self.pc), self.a),
            Instruction::Lda => check_load(self.memory.read_word(self.pc)),
            Instruction::Mov(d, s) => if s.register == 6 {
                check_load(hl)
            } else if d.register == 6 {
                check_store(hl, self.reg(s))
            } else {
                None
            },
            Instruction::Alu(_, r) => if r.register == 6 {
                check_load(hl)
            } else {
                None
            },
            Instruction::Ret => check_load_word(self.sp),
            Instruction::RetIf(c) => if self.holds(c) {
                check_load_word(self.sp)
            } else {
                None
            },
            Instruction::Call => check_store_word(below, self.pc + 2),
            Instruction::CallIf(c) => if self.holds(c) {
                check_store_word(below, self.pc + 2)
            } else {
                None
            },
            Instruction::Push(p) => check_store_word(below, self.stack_pair(p)),
            Instruction::Pop(_) => check_load_word(self.sp),
            Instruction::Xthl => {
                let read = check_load_word(self.sp);
                if read.is_some() {
                    read
                } else {
                    check_store_word(self.sp, hl)
                }
            },
            _ => None,
        }
    }

    /// INX: adds 1 to the register pair `p`, modulo 65536. No flag changes.
    pub fn inx(&mut self, p: Pair)
        ensures
            final(self)@ == old(self)@.with_pair(p, wrap16(old(self)@.pair(p) + 1)),
            final(self).cc == old(self).cc,
    {
        let val = self.pair(p);
        let mut high = high_byte(val);
        let mut low = low_byte(val);
        proof {
            crate::cpu::bits::lemma_word_parts(val);
        }
        instructions::inx(&mut high, &mut low);
        self.set_pair(p, make_word(high, low));
    }

    /// DCX: subtracts 1 from the register pair `p`, modulo 65536. No flag changes.
    pub fn dcx(&mut self, p: Pair)
        ensures
            final(self)@ == old(self)@.with_pair(p, wrap16(old(self)@.pair(p) - 1)),
            final(self).cc == old(self).cc,
    {
        let val = self.pair(p);
        let mut high = high_byte(val);
        let mut low = low_byte(val);
        proof {
            crate::cpu::bits::lemma_word_parts(val);
        }
        instructions::dcx(&mut high, &mut low);
        self.set_pair(p, make_word(high, low));
    }

    /// INR on the operand `r`: a register, or the byte that HL addresses. The
    /// result is false when that byte is not in RAM: the flags then follow the
    /// incremented value and the memory keeps the old one.
    pub fn inr_operand(&mut self, r: Register) -> (ok: bool)
        requires
            r.is_memory() ==> readable(old(self)@.hl() as int),
        ensures
            final(self)@ == (Machine {
                cc: instructions::after_inr(old(self).cc, old(self)@.reg(r)),
                ..old(self)@
            }).with_reg(r, wrap8(old(self)@.reg(r) + 1)),
            ok == (r.is_memory() ==> writable(old(self)@.hl() as int)),
    {
        let val = self.inr(self.reg(r));
        self.set_reg(r, val)
    }

    /// DCR on the operand `r`: a register, or the byte that HL addresses. The
    /// result is false when that byte is not in RAM: the flags then follow the
    /// decremented value and the memory keeps the old one.
    pub fn dcr_operand(&mut self, r: Register) -> (ok: bool)
        requires
            r.is_memory() ==> readable(old(self)@.hl() as int),
        ensures
            final(self)@ == (Machine {
                cc: instructions::after_dcr(old(self).cc, old(self)@.reg(r)),
                ..old(self)@
            }).with_reg(r, wrap8(old(self)@.reg(r) - 1)),
            ok == (r.is_memory() ==> writable(old(self)@.hl() as int)),
    {
        let val = self.dcr(self.reg(r));
        self.set_reg(r, val)
    }

    /// Carries out a data transfer `i` whose opcode has been fetched and whose
    /// accesses the memory allows.
    #[verifier::rlimit(50)]
    pub fn transfer(&mut self, i: Instruction)
        requires
            i.is_transfer(),
            old(self)@.fetch_fault(i) is None,
            old(self)@.transfer_fault(i) is None,
        ensures
            final(self)@ == old(self)@.transferred(i),
    {
        match i {
            Instruction::Lxi(p) => {
                let val = self.read_next_word();
                self.set_pair(p, val);
            },
            Instruction::Stax(p) => {
                let addr = self.pair(p);
                instructions::stax(&self.a, &high_byte(addr), &low_byte(addr), &mut self.memory);
            },
            Instruction::Ldax(p) => {
                let addr = self.pair(p);
                instructions::ldax(&mut self.a, &high_byte(addr), &low_byte(addr), &self.memory);
            },
            Instruction::Mvi(r) => {
                let val = self.read_next();
                self.set_reg(r, val);
            },
            Instruction::Shld => {
                let addr = self.read_next_word();
                self.memory.write_word(addr, self.h, self.l);
            },
            Instruction::Lhld => {
                let addr = self.read_next_word();
                let val = self.memory.read_word(addr);
                self.set_hl(val);
            },
            Instruction::Sta => {
                let addr = self.read_next_word();
                self.memory.write(addr, self.a);
            },
            Instruction::Lda => {
                let addr = self.read_next_word();
                self.a = self.memory.read(addr);
            },
            Instruction::Mov(d, s) => {
                let val = self.reg(s);
                self.set_reg(d, val);
            },
            Instruction::Push(p) => {
                let val = self.stack_pair(p);
                self.push(val);
            },
            Instruction::Pop(p) => match p {
                StackPair::BC => {
                    let val = self.pop();
                    self.set_bc(val);
                },
                StackPair::DE => {
                    let val = self.pop();
                    self.set_de(val);
                },
                StackPair::HL => {
                    let val = self.pop();
                    self.set_hl(val);
                },
                StackPair::PSW => self.pop_psw(),
            },
            Instruction::Xthl => {
                self.xthl();
            },
            Instruction::Xchg => self.xchg(),
            Instruction::Sphl => {
                self.sp = self.get_hl();
            },
            _ => {},
        }
    }

    /// Carries out a counting instruction `i` whose opcode has been fetched
    /// and whose accesses the memory allows.
    #[verifier::rlimit(50)]
    pub fn count(&mut self, i: Instruction)
        requires
            i.is_counting(),
            old(self)@.fetch_fault(i) is None,
            old(self)@.counting_fault(i) is None,
        ensures
            final(self)@ == old(self)@.counted(i),
    {
        match i {
            Instruction::Inx(p) => self.inx(p),
            Instruction::Dcx(p) => self.dcx(p),
            Instruction::Dad(p) => self.dad(self.pair(p)),
            Instruction::Inr(r) => {
                self.inr_operand(r);
            },
            Instruction::Dcr(r) => {
                self.dcr_operand(r);
            },
            _ => {},
        }
    }

    /// Carries out `i`, a rotation or the complement of the accumulator or a
    /// change of Carry, whose opcode has been fetched.
    #[verifier::rlimit(50)]
    pub fn adjust(&mut self, i: Instruction)
        requires
            i.is_adjusting(),
            old(self)@.fetch_fault(i) is None,
        ensures
            final(self)@ == old(self)@.adjusted(i),
    {
        match i {
            Instruction::Rlc => self.rlc(),
            Instruction::Rrc => self.rrc(),
            Instruction::Ral => self.ral(),
            Instruction::Rar => self.rar(),
            Instruction::Cma => {
                proof {
                    lemma_complement(self.a);
                }
                self.a = !self.a;
            },
            Instruction::Stc => {
                self.cc.cy = true;
            },
            Instruction::Cmc => {
                self.cc.cy = !self.cc.cy;
            },
            _ => {},
        }
    }

    /// Carries out an operation `i` of the arithmetic and logic unit whose
    /// opcode has been fetched and whose operand the memory allows to read.
    pub fn operate(&mut self, i: Instruction)
        requires
            i is Alu || i is AluImmediate,
            old(self)@.fetch_fault(i) is None,
            old(self)@.operand_fault(i) is None,
        ensures
            final(self)@ == old(self)@.operated(i),
    {
        match i {
            Instruction::Alu(op, r) => self.alu(op, self.reg(r)),
            Instruction::AluImmediate(op) => {
                let val = self.read_next();
                self.alu(op, val);
            },
            _ => {},
        }
    }

    /// Carries out a jump, call or return `i` whose opcode has been fetched
    /// and whose accesses the memory allows, and says whether it was taken.
    #[verifier::rlimit(50)]
    pub fn branch(&mut self, i: Instruction) -> (taken: bool)
        requires
            i.is_branch(),
            old(self)@.fetch_fault(i) is None,
            old(self)@.branch_fault(i) is None,
        ensures
            final(self)@ == old(self)@.branched(i),
            taken == old(self)@.taken(i),
    {
        match i {
            Instruction::Ret => {
                self.ret();
                true
            },
            Instruction::RetIf(c) => {
                let taken = self.holds(c);
                self.cond_ret(taken);
                taken
            },
            Instruction::Jmp => {
                let val = self.read_next_word();
                self.jump(val);
                true
            },
            Instruction::JmpIf(c) => {
                let taken = self.holds(c);
                self.cond_jump(taken);
                taken
            },
            Instruction::Call => {
                let val = self.read_next_word();
                self.call(val);
                true
            },
            Instruction::CallIf(c) => {
                let taken = self.holds(c);
                self.cond_call(taken);
                taken
            },
            Instruction::Pchl => {
                self.pc = self.get_hl();
                true
            },
            _ => true,
        }
    }

    /// Carries out the instruction `i`, one of NOP, IN, OUT, EI and DI, whose
    /// opcode has been fetched, and says what the caller is to be told.
    pub fn control(&mut self, i: Instruction) -> (event: Event)
        requires
            old(self).wf(),
            i.is_control(),
            old(self)@.fetch_fault(i) is None,
        ensures
            final(self).wf(),
            final(self)@ == old(self)@.controlled(i),
            event == old(self)@.event(i),
    {
        match i {
            Instruction::Out => {
                let port = self.read_next();
                if self.special.machine_out(port, self.a) {
                    Event::Executed
                } else {
                    Event::OutputIgnored { port, value: self.a }
                }
            },
            Instruction::In => {
                let port = self.read_next();
                self.a = self.special.machine_in(port);
                if Special::answers(port) {
                    Event::Executed
                } else {
                    Event::InputIgnored { port }
                }
            },
            Instruction::Ei => {
                self.int_enable = true;
                Event::Executed
            },
            Instruction::Di => {
                self.int_enable = false;
                Event::Executed
            },
            _ => {
                self.nop();
                Event::Executed
            },
        }
    }

    /// Carries out the instruction whose opcode was fetched last: the program
    /// counter stands behind the opcode. `opcode` is decoded, the operand, if the
    /// instruction has one, is read at the program counter, which moves past it,
    /// and the instruction takes effect. An instruction without operand reads
    /// nothing at the program counter and leaves it where it is, unless it
    /// branches. The cycle counter is not touched: see [`State8080::step`].
    ///
    /// A byte that is no instruction gives [`Fault::UnknownOpcode`], with the
    /// address that it was fetched from. An instruction that would read beyond
    /// the address space or write outside RAM gives the fault of its first such
    /// access. In both cases nothing has changed.
    #[verifier::rlimit(50)]
    pub fn do_instruction(&mut self, opcode: u8) -> (r: Result<Event, Fault>)
        requires
            old(self).wf(),
        ensures
            final(self).wf(),
            match old(self)@.execute(opcode) {
                Ok((m, e)) => r == Ok::<Event, Fault>(e) && final(self)@ == m,
                Err(f) => r == Err::<Event, Fault>(f) && final(self)@ == old(self)@,
            },
    {
        let i = match decode(opcode) {
            Some(i) => i,
            None => {
                return Err(Fault::UnknownOpcode { opcode, pc: self.pc.wrapping_sub(1) });
            },
        };
        if let Some(f) = self.fault_of(i) {
            return Err(f);
        }
        let mut event = Event::Executed;
        match i {
            Instruction::Lxi(_)
            | Instruction::Stax(_)
            | Instruction::Ldax(_)
            | Instruction::Mvi(_)
            | Instruction::Shld
            | Instruction::Lhld
            | Instruction::Sta
            | Instruction::Lda
            | Instruction::Mov(_, _)
            | Instruction::Push(_)
            | Instruction::Pop(_)
            | Instruction::Xthl
            | Instruction::Xchg
            | Instruction::Sphl => self.transfer(i),
            Instruction::Inx(_)
            | Instruction::Dcx(_)
            | Instruction::Dad(_)
            | Instruction::Inr(_)
            | Instruction::Dcr(_) => self.count(i),
            Instruction::Rlc
            | Instruction::Rrc
            | Instruction::Ral
            | Instruction::Rar
            | Instruction::Cma
            | Instruction::Stc
            | Instruction::Cmc => self.adjust(i),
            Instruction::Alu(_, _) | Instruction::AluImmediate(_) => self.operate(i),
            Instruction::Ret
            | Instruction::RetIf(_)
            | Instruction::Jmp
            | Instruction::JmpIf(_)
            | Instruction::Call
            | Instruction::CallIf(_)
            | Instruction::Pchl => {
                self.branch(i);
            },
            Instruction::Nop
            | Instruction::Out
            | Instruction::In
            | Instruction::Ei
            | Instruction::Di => {
                event = self.control(i);
            },
        }
        Ok(event)
    }

    /// Whether the instruction that `opcode` stands for takes its branch: the
    /// condition of a conditional jump, call or return holds. True of every
    /// other byte.
    pub fn takes(&self, opcode: u8) -> (taken: bool)
        ensures
            taken == self@.takes(opcode),
    {
        match decode(opcode) {
            Some(Instruction::RetIf(c)) | Some(Instruction::JmpIf(c)) | Some(
                Instruction::CallIf(c),
            ) => self.holds(c),
            _ => true,
        }
    }

    /// Ends half a frame: half a frame leaves the cycle counter. With interrupts
    /// enabled, the interrupt is taken: the program counter is pushed, the
    /// program continues at the vector of the slot (0x08, then 0x10, in turn),
    /// the slot changes over, and interrupts are disabled until the program
    /// enables them again. With interrupts disabled nothing else changes.
    ///
    /// If the stack is not in RAM the interrupt cannot be taken: the fault of the
    /// push is returned and nothing has changed.
    pub fn interrupt(&mut self) -> (r: Result<Event, Fault>)
        requires
            old(self).cycles - HALF_FRAME >= isize::MIN,
        ensures
            match old(self)@.interrupt() {
                Ok((m, e)) => r == Ok::<Event, Fault>(e) && final(self)@ == m,
                Err(f) => r == Err::<Event, Fault>(f) && final(self)@ == old(self)@,
            },
            final(self).wf() == old(self).wf(),
            !old(self).int_enable ==> final(self).int_type == old(self).int_type,
    {
        let mut event = Event::InterruptMasked;
        if self.int_enable {
            if let Some(f) = check_store_word(self.sp.wrapping_sub(2), self.pc) {
                return Err(f);
            }
            let vector: u16 = if self.int_type { 0x10 } else { 0x08 };
            self.push(self.pc);
            self.pc = vector;
            self.int_enable = false;
            self.int_type = !self.int_type;
            event = Event::Interrupt { vector };
        }
        self.cycles -= HALF_FRAME;
        Ok(event)
    }

    /// One step of the paced machine. While the half frame has cycles left, the
    /// opcode at the program counter is fetched, [`State8080::do_instruction`]
    /// carries the instruction out, and its cost is added to the cycle counter;
    /// once the cycle counter has reached [`HALF_FRAME`], the half frame ends
    /// with [`State8080::interrupt`]. A fault leaves the machine as it was, the
    /// program counter at the instruction that faulted.
    #[verifier::rlimit(50)]
    pub fn step(&mut self) -> (r: Result<Event, Fault>)
        requires
            old(self).wf(),
        ensures
            final(self).wf(),
            match old(self)@.step() {
                Ok((m, e)) => r == Ok::<Event, Fault>(e) && final(self)@ == m,
                Err(f) => r == Err::<Event, Fault>(f) && final(self)@ == old(self)@,
            },
    {
        if self.cycles < HALF_FRAME {
            if self.pc >= 0x4000 {
                return Err(Fault::ReadOutOfRange { address: self.pc });
            }
            let at: u16 = self.pc;
            let opcode = self.read_next();
            let taken = self.takes(opcode);
            match self.do_instruction(opcode) {
                Ok(event) => {
                    proof {
                        crate::cpu::machine::lemma_cost_bounds(opcode, taken);
                    }
                    self.spend(cycles(opcode, taken));
                    Ok(event)
                },
                Err(f) => {
                    self.pc = at;
                    Err(f)
                },
            }
        } else {
            self.interrupt()
        }
    }

    /// Adds the cost of an instruction to the cycle counter.
    pub fn spend(&mut self, cost: u8)
        requires
            old(self).cycles + cost <= isize::MAX,
        ensures
            final(self)@ == (Machine { cycles: old(self)@.cycles + cost, ..old(self)@ }),
    {
        self.cycles += cost as isize;
    }
}

/// The bytes that the instruction takes.
pub fn instruction_width(i: Instruction) -> (n: u16)
    ensures
        n == i.width(),
{
    match i {
        Instruction::Lxi(_)
        | Instruction::Shld
        | Instruction::Lhld
        | Instruction::Sta
        | Instruction::Lda
        | Instruction::Jmp
        | Instruction::JmpIf(_)
        | Instruction::Call
        | Instruction::CallIf(_) => 3,
        Instruction::Mvi(_) | Instruction::AluImmediate(_) | Instruction::Out | Instruction::In => 2,
        _ => 1,
    }
}

/// The fault of a read at `addr`, if it is one.
pub fn check_load(addr: u16) -> (f: Option<Fault>)
    ensures
        f == crate::cpu::machine::load_fault(addr as int),
{
    if addr < 0x4000 {
        None
    } else {
        Some(Fault::ReadOutOfRange { address: addr })
    }
}

/// The fault of reading the word at `addr`, if it is one.
pub fn check_load_word(addr: u16) -> (f: Option<Fault>)
    ensures
        f == crate::cpu::machine::load_word_fault(addr as int),
{
    if addr >= 0x4000 {
        Some(Fault::ReadOutOfRange { address: addr })
    } else if addr + 1 >= 0x4000 {
        Some(Fault::ReadOutOfRange { address: addr + 1 })
    } else {
        None
    }
}

/// The fault of writing `val` at `addr`, if it is one.
pub fn check_store(addr: u16, val: u8) -> (f: Option<Fault>)
    ensures
        f == crate::cpu::machine::store_fault(addr as int, val),
{
    if 0x2000 <= addr && addr <= 0x3fff {
        None
    } else {
        Some(Fault::WriteProtected { address: addr, value: val })
    }
}

/// The fault of writing the word `val` at `addr`, low byte first, if it is one.
pub fn check_store_word(addr: u16, val: u16) -> (f: Option<Fault>)
    ensures
        f == crate::cpu::machine::store_word_fault(addr as int, val),
{
    if !(0x2000 <= addr && addr <= 0x3fff) {
        Some(Fault::WriteProtected { address: addr, value: low_byte(val) })
    } else if addr == 0x3fff {
        Some(Fault::WriteProtected { address: addr + 1, value: high_byte(val) })
    } else {
        None
    }
}

proof fn lemma_rotate_left(a: u8)
    by (bit_vector)
    ensures
        ((a >> 7) | (a << 1)) as u16 == (a as u16 * 2 + a as u16 / 128) % 256,
{
}

proof fn lemma_rotate_right(a: u8)
    by (bit_vector)
    ensures
        ((a << 7) | (a >> 1)) as u16 == (a as u16 / 2 + 128 * (a as u16 % 2)) % 256,
{
}

proof fn lemma_rotate_left_through(a: u8, c: u8)
    by (bit_vector)
    requires
        c <= 1,
    ensures
        ((a << 1) | c) as u16 == (a as u16 * 2 + c as u16) % 256,
{
}

proof fn lemma_rotate_right_through(a: u8, c: u8)
    by (bit_vector)
    requires
        c <= 1,
    ensures
        ((a >> 1) | (c << 7)) as u16 == (a as u16 / 2 + 128 * c as u16) % 256,
{
}

proof fn lemma_complement(v: u8)
    by (bit_vector)
    ensures
        !v == 255u8 - v,
{
}

} // verus!
