//! The mathematical model of the machine, and what each instruction does to it.
//!
//! A [`Machine`] is a value; the functions here say which machine follows which.
//! The executable state in [`crate::cpu::state8080`] is proved to follow them.
//!
//! An instruction is atomic: either every access it makes to memory is allowed and
//! it takes effect as a whole, or the first access that is not allowed is reported
//! as a [`Fault`] and the machine stays as it was.
//!
//! The functions on instructions take the machine as the fetch of the opcode
//! leaves it: the program counter stands behind the opcode, at the operand of an
//! instruction that has one.

use crate::cpu::bits::{bit, flag, high, low, word, wrap16, wrap8};
use crate::cpu::flags::ConditionCodes;
use crate::cpu::instructions::{after_add, after_dcr, after_inr, after_logic, after_sub};
use crate::cpu::memory::{readable, word_at, word_written, writable, written};
use crate::cpu::opcode::{
    cycle_cost, decoded, AluOp, Condition, Instruction, Pair, Register, StackPair, MAX_COST,
};
use crate::cpu::special::{input_port_known, output_port_known, Special};
use vstd::prelude::*;

verus! {

/// Clock cycles in one video frame: a 2 MHz clock at 60 frames a second.
pub const CYCLES_PER_FRAME: isize = 33333;

/// Clock cycles between two interrupts: half a frame.
pub const HALF_FRAME: isize = 16666;

/// Why the machine stopped.
#[derive(Clone, Copy, Debug, PartialEq, Eq)]
pub enum Fault {
    /// The byte `opcode`, fetched at `pc`, is no instruction of this processor.
    UnknownOpcode { opcode: u8, pc: u16 },
    /// An instruction tried to write `value` at `address`, which is not in RAM.
    WriteProtected { address: u16, value: u8 },
    /// An instruction tried to read `address`, which is beyond the address space.
    ReadOutOfRange { address: u16 },
}

/// What a step of the machine did.
#[derive(Clone, Copy, Debug, PartialEq, Eq)]
pub enum Event {
    /// One instruction ran.
    Executed,
    /// One IN instruction ran on a port that no device answers: it read 0.
    InputIgnored { port: u8 },
    /// One OUT instruction ran on a port that no device takes: `value` was dropped.
    OutputIgnored { port: u8, value: u8 },
    /// Half a frame had passed and the interrupt was taken: the program continues at `vector`.
    Interrupt { vector: u16 },
    /// Half a frame had passed while interrupts were disabled.
    InterruptMasked,
}

/// The machine as a value: registers, memory, flags, the interrupt state, the
/// cycle counter and the shift register.
#[verifier::ext_equal]
pub struct Machine {
    pub a: u8,
    pub b: u8,
    pub c: u8,
    pub d: u8,
    pub e: u8,
    pub h: u8,
    pub l: u8,
    pub sp: u16,
    pub pc: u16,
    pub memory: Seq<u8>,
    pub cc: ConditionCodes,
    pub int_enable: bool,
    pub int_type: bool,
    pub cycles: int,
    pub special: Special,
}

/// The fault of a read at `addr`, if it is one.
pub open spec fn load_fault(addr: int) -> Option<Fault> {
    if readable(addr) {
        None
    } else {
        Some(Fault::ReadOutOfRange { address: addr as u16 })
    }
}

/// The fault of reading the word at `addr`, low byte first, if it is one.
pub open spec fn load_word_fault(addr: int) -> Option<Fault> {
    if !readable(addr) {
        Some(Fault::ReadOutOfRange { address: addr as u16 })
    } else if !readable(addr + 1) {
        Some(Fault::ReadOutOfRange { address: (addr + 1) as u16 })
    } else {
        None
    }
}

/// The fault of writing `val` at `addr`, if it is one.
pub open spec fn store_fault(addr: int, val: u8) -> Option<Fault> {
    if writable(addr) {
        None
    } else {
        Some(Fault::WriteProtected { address: addr as u16, value: val })
    }
}

/// The fault of writing the word `val` at `addr`, low byte first, if it is one.
pub open spec fn store_word_fault(addr: int, val: u16) -> Option<Fault> {
    if !writable(addr) {
        Some(Fault::WriteProtected { address: addr as u16, value: low(val) })
    } else if !writable(addr + 1) {
        Some(Fault::WriteProtected { address: (addr + 1) as u16, value: high(val) })
    } else {
        None
    }
}

/// The first of two faults.
pub open spec fn or_else(first: Option<Fault>, second: Option<Fault>) -> Option<Fault> {
    if first is Some {
        first
    } else {
        second
    }
}

/// The accumulator after the operation `op` with operand `v`, carry `cy` coming in.
pub open spec fn alu_result(op: AluOp, a: u8, v: u8, cy: bool) -> u8 {
    match op {
        AluOp::Add => wrap8(a + v),
        AluOp::AddCarry => wrap8(a + v + flag(cy)),
        AluOp::Sub => wrap8(a - v),
        AluOp::SubBorrow => wrap8(a - v - flag(cy)),
        AluOp::And => a & v,
        AluOp::Xor => a ^ v,
        AluOp::Or => a | v,
        AluOp::Compare => a,
    }
}

/// The flags after the operation `op` on accumulator `a` with operand `v`.
pub open spec fn alu_flags(op: AluOp, cc: ConditionCodes, a: u8, v: u8) -> ConditionCodes {
    match op {
        AluOp::Add => after_add(cc, a, v, false),
        AluOp::AddCarry => after_add(cc, a, v, cc.cy),
        AluOp::Sub => after_sub(cc, a, v, false),
        AluOp::SubBorrow => after_sub(cc, a, v, cc.cy),
        AluOp::And => after_logic(cc, a & v, bit(a | v, 3)),
        AluOp::Xor => after_logic(cc, a ^ v, false),
        AluOp::Or => after_logic(cc, a | v, false),
        AluOp::Compare => after_sub(cc, a, v, false),
    }
}

impl Machine {
    /// The memory has its size and the shift offset its three bits.
    pub open spec fn wf(self) -> bool {
        self.memory.len() == 0x4000 && self.special.wf()
    }

    /// The register pair BC: B above C.
    pub open spec fn bc(self) -> u16 {
        word(self.b, self.c)
    }

    /// The register pair DE: D above E.
    pub open spec fn de(self) -> u16 {
        word(self.d, self.e)
    }

    /// The register pair HL: H above L.
    pub open spec fn hl(self) -> u16 {
        word(self.h, self.l)
    }

    /// The accumulator above the status byte.
    pub open spec fn af(self) -> u16 {
        word(self.a, self.cc.psw())
    }

    /// The machine with `v` in BC.
    pub open spec fn with_bc(self, v: u16) -> Machine {
        Machine { b: high(v), c: low(v), ..self }
    }

    /// The machine with `v` in DE.
    pub open spec fn with_de(self, v: u16) -> Machine {
        Machine { d: high(v), e: low(v), ..self }
    }

    /// The machine with `v` in HL.
    pub open spec fn with_hl(self, v: u16) -> Machine {
        Machine { h: high(v), l: low(v), ..self }
    }

    /// The machine with the high byte of `v` in the accumulator and the flags
    /// that its low byte encodes.
    pub open spec fn with_af(self, v: u16) -> Machine {
        Machine { a: high(v), cc: ConditionCodes::from_psw(low(v)), ..self }
    }

    /// The value of the register pair `p`.
    pub open spec fn pair(self, p: Pair) -> u16 {
        match p {
            Pair::BC => self.bc(),
            Pair::DE => self.de(),
            Pair::HL => self.hl(),
            Pair::SP => self.sp,
        }
    }

    /// The machine with `v` in the register pair `p`.
    pub open spec fn with_pair(self, p: Pair, v: u16) -> Machine {
        match p {
            Pair::BC => self.with_bc(v),
            Pair::DE => self.with_de(v),
            Pair::HL => self.with_hl(v),
            Pair::SP => Machine { sp: v, ..self },
        }
    }

    /// The word that PUSH writes for the pair `p`.
    pub open spec fn stack_pair(self, p: StackPair) -> u16 {
        match p {
            StackPair::BC => self.bc(),
            StackPair::DE => self.de(),
            StackPair::HL => self.hl(),
            StackPair::PSW => self.af(),
        }
    }

    /// The machine after POP loaded the pair `p` with `v`.
    pub open spec fn with_stack_pair(self, p: StackPair, v: u16) -> Machine {
        match p {
            StackPair::BC => self.with_bc(v),
            StackPair::DE => self.with_de(v),
            StackPair::HL => self.with_hl(v),
            StackPair::PSW => self.with_af(v),
        }
    }

    /// The value of the 8-bit operand `r`.
    pub open spec fn reg(self, r: Register) -> u8 {
        if r.register == 0 {
            self.b
        } else if r.register == 1 {
            self.c
        } else if r.register == 2 {
            self.d
        } else if r.register == 3 {
            self.e
        } else if r.register == 4 {
            self.h
        } else if r.register == 5 {
            self.l
        } else if r.register == 6 {
            self.memory[self.hl() as int]
        } else {
            self.a
        }
    }

    /// The machine with `v` in the 8-bit operand `r`.
    pub open spec fn with_reg(self, r: Register, v: u8) -> Machine {
        if r.register == 0 {
            Machine { b: v, ..self }
        } else if r.register == 1 {
            Machine { c: v, ..self }
        } else if r.register == 2 {
            Machine { d: v, ..self }
        } else if r.register == 3 {
            Machine { e: v, ..self }
        } else if r.register == 4 {
            Machine { h: v, ..self }
        } else if r.register == 5 {
            Machine { l: v, ..self }
        } else if r.register == 6 {
            self.stored(self.hl(), v)
        } else {
            Machine { a: v, ..self }
        }
    }

    /// Whether the condition `c` holds of the flags.
    pub open spec fn holds(self, c: Condition) -> bool {
        match c {
            Condition::NotZero => !self.cc.z,
            Condition::Zero => self.cc.z,
            Condition::NoCarry => !self.cc.cy,
            Condition::Carry => self.cc.cy,
            Condition::ParityOdd => !self.cc.p,
            Condition::ParityEven => self.cc.p,
            Condition::Plus => !self.cc.s,
            Condition::Minus => self.cc.s,
        }
    }

    /// The machine after an attempt to write `v` at `addr`.
    pub open spec fn stored(self, addr: u16, v: u8) -> Machine {
        Machine { memory: written(self.memory, addr as int, v), ..self }
    }

    /// The machine after an attempt to write the word `v` at `addr`.
    pub open spec fn word_stored(self, addr: u16, v: u16) -> Machine {
        Machine { memory: word_written(self.memory, addr as int, v), ..self }
    }

    /// The machine after `v` was pushed: the stack pointer goes down by two and
    /// the word is written where it then points.
    pub open spec fn pushed(self, v: u16) -> Machine {
        Machine { sp: wrap16(self.sp - 2), ..self }.word_stored(wrap16(self.sp - 2), v)
    }

    /// The word on top of the stack.
    pub open spec fn top(self) -> u16 {
        word_at(self.memory, self.sp as int)
    }

    /// The machine after the top of the stack was taken off.
    pub open spec fn popped(self) -> Machine {
        Machine { sp: wrap16(self.sp + 2), ..self }
    }

    /// The machine after the operation `op` with operand `v`.
    pub open spec fn alu(self, op: AluOp, v: u8) -> Machine {
        Machine {
            a: alu_result(op, self.a, v, self.cc.cy),
            cc: alu_flags(op, self.cc, self.a, v),
            ..self
        }
    }

    /// The machine after one of the four rotations of the accumulator, the cycle
    /// counter and the program counter aside.
    pub open spec fn rotated(self, i: Instruction) -> Machine {
        match i {
            Instruction::Rlc => Machine {
                a: wrap8(self.a * 2 + self.a / 128),
                cc: ConditionCodes { cy: bit(self.a, 7), ..self.cc },
                ..self
            },
            Instruction::Rrc => Machine {
                a: wrap8(self.a / 2 + 128 * (self.a % 2)),
                cc: ConditionCodes { cy: bit(self.a, 0), ..self.cc },
                ..self
            },
            Instruction::Ral => Machine {
                a: wrap8(self.a * 2 + flag(self.cc.cy)),
                cc: ConditionCodes { cy: bit(self.a, 7), ..self.cc },
                ..self
            },
            Instruction::Rar => Machine {
                a: wrap8(self.a / 2 + 128 * flag(self.cc.cy)),
                cc: ConditionCodes { cy: bit(self.a, 0), ..self.cc },
                ..self
            },
            _ => self,
        }
    }

    /// The machine after `v` was added to HL: Carry reports a sum beyond 16 bits.
    pub open spec fn double_added(self, v: u16) -> Machine {
        Machine {
            cc: ConditionCodes { cy: self.hl() + v > 0xffff, ..self.cc },
            ..self.with_hl(wrap16(self.hl() + v))
        }
    }

    /// The byte operand of an instruction whose opcode has been fetched: the
    /// byte at the program counter.
    pub open spec fn imm8(self) -> u8 {
        self.memory[self.pc as int]
    }

    /// The word operand of an instruction whose opcode has been fetched: the
    /// little-endian word at the program counter.
    pub open spec fn imm16(self) -> u16 {
        word_at(self.memory, self.pc as int)
    }

    /// The address of the instruction that follows `i`, when the opcode of `i`
    /// has been fetched and the program counter stands at its operand: the
    /// program counter itself for an instruction without operand.
    pub open spec fn next(self, i: Instruction) -> u16 {
        (self.pc + i.width() - 1) as u16
    }

    /// Whether the instruction that `opcode` stands for takes its branch; true of
    /// a byte that is no instruction.
    pub open spec fn takes(self, opcode: u8) -> bool {
        match decoded(opcode) {
            Some(i) => self.taken(i),
            None => true,
        }
    }

    /// Whether the conditional instruction `i` takes its branch; true of every
    /// other instruction.
    pub open spec fn taken(self, i: Instruction) -> bool {
        match i {
            Instruction::RetIf(c) | Instruction::JmpIf(c) | Instruction::CallIf(c) => self.holds(c),
            _ => true,
        }
    }

    /// The fault of fetching the operand of the instruction `i` at the program
    /// counter: a byte of it lies beyond the address space. An instruction
    /// without operand fetches nothing.
    pub open spec fn fetch_fault(self, i: Instruction) -> Option<Fault> {
        if i.width() == 2 {
            load_fault(self.pc as int)
        } else if i.width() == 3 {
            load_word_fault(self.pc as int)
        } else {
            None
        }
    }

    /// The first access to data of the data transfer `i` that the memory refuses.
    pub open spec fn transfer_fault(self, i: Instruction) -> Option<Fault> {
        match i {
            Instruction::Stax(p) => store_fault(self.pair(p) as int, self.a),
            Instruction::Ldax(p) => load_fault(self.pair(p) as int),
            Instruction::Mvi(r) => if r.is_memory() {
                store_fault(self.hl() as int, self.imm8())
            } else {
                None
            },
            Instruction::Shld => store_word_fault(self.imm16() as int, self.hl()),
            Instruction::Lhld => load_word_fault(self.imm16() as int),
            Instruction::Sta => store_fault(self.imm16() as int, self.a),
            Instruction::Lda => load_fault(self.imm16() as int),
            Instruction::Mov(d, s) => if s.is_memory() {
                load_fault(self.hl() as int)
            } else if d.is_memory() {
                store_fault(self.hl() as int, self.reg(s))
            } else {
                None
            },
            Instruction::Push(p) => store_word_fault(
                wrap16(self.sp - 2) as int,
                self.stack_pair(p),
            ),
            Instruction::Pop(_) => load_word_fault(self.sp as int),
            Instruction::Xthl => or_else(
                load_word_fault(self.sp as int),
                store_word_fault(self.sp as int, self.hl()),
            ),
            _ => None,
        }
    }

    /// The first access to data of the counting instruction `i` that the memory
    /// refuses: INR and DCR of the byte that HL addresses read it and write it.
    pub open spec fn counting_fault(self, i: Instruction) -> Option<Fault> {
        match i {
            Instruction::Inr(r) => if r.is_memory() {
                or_else(
                    load_fault(self.hl() as int),
                    store_fault(self.hl() as int, wrap8(self.reg(r) + 1)),
                )
            } else {
                None
            },
            Instruction::Dcr(r) => if r.is_memory() {
                or_else(
                    load_fault(self.hl() as int),
                    store_fault(self.hl() as int, wrap8(self.reg(r) - 1)),
                )
            } else {
                None
            },
            _ => None,
        }
    }

    /// The fault of reading the operand of the operation `i` of the arithmetic
    /// and logic unit, if it is one.
    pub open spec fn operand_fault(self, i: Instruction) -> Option<Fault> {
        match i {
            Instruction::Alu(_, r) => if r.is_memory() {
                load_fault(self.hl() as int)
            } else {
                None
            },
            _ => None,
        }
    }

    /// The first access to the stack of the call or return `i` that the memory refuses.
    pub open spec fn branch_fault(self, i: Instruction) -> Option<Fault> {
        match i {
            Instruction::Ret => load_word_fault(self.sp as int),
            Instruction::RetIf(c) => if self.holds(c) {
                load_word_fault(self.sp as int)
            } else {
                None
            },
            Instruction::Call => store_word_fault(wrap16(self.sp - 2) as int, self.next(i)),
            Instruction::CallIf(c) => if self.holds(c) {
                store_word_fault(wrap16(self.sp - 2) as int, self.next(i))
            } else {
                None
            },
            _ => None,
        }
    }

    /// The first access to data of the instruction `i` that the memory refuses:
    /// what it reads comes before what it writes.
    pub open spec fn access_fault(self, i: Instruction) -> Option<Fault> {
        if i.is_transfer() {
            self.transfer_fault(i)
        } else if i.is_counting() {
            self.counting_fault(i)
        } else if i.is_adjusting() {
            None
        } else if i.is_branch() {
            self.branch_fault(i)
        } else if i.is_control() {
            None
        } else {
            self.operand_fault(i)
        }
    }

    /// The first access that the memory refuses of the instruction `i`, whose
    /// opcode has been fetched: its operand comes first, then its data.
    pub open spec fn fault(self, i: Instruction) -> Option<Fault> {
        or_else(self.fetch_fault(i), self.access_fault(i))
    }

    /// The machine after the data transfer `i`, with its opcode fetched.
    pub open spec fn transferred(self, i: Instruction) -> Machine {
        let m = Machine { pc: self.next(i), ..self };
        match i {
            Instruction::Lxi(p) => m.with_pair(p, self.imm16()),
            Instruction::Stax(p) => m.stored(self.pair(p), self.a),
            Instruction::Ldax(p) => Machine { a: self.memory[self.pair(p) as int], ..m },
            Instruction::Mvi(r) => m.with_reg(r, self.imm8()),
            Instruction::Shld => m.word_stored(self.imm16(), self.hl()),
            Instruction::Lhld => m.with_hl(word_at(self.memory, self.imm16() as int)),
            Instruction::Sta => m.stored(self.imm16(), self.a),
            Instruction::Lda => Machine { a: self.memory[self.imm16() as int], ..m },
            Instruction::Mov(d, s) => m.with_reg(d, self.reg(s)),
            Instruction::Push(p) => m.pushed(self.stack_pair(p)),
            Instruction::Pop(p) => m.popped().with_stack_pair(p, self.top()),
            Instruction::Xthl => m.word_stored(self.sp, self.hl()).with_hl(self.top()),
            Instruction::Xchg => m.with_hl(self.de()).with_de(self.hl()),
            Instruction::Sphl => Machine { sp: self.hl(), ..m },
            _ => m,
        }
    }

    /// The machine after the counting instruction `i`, with its opcode fetched.
    pub open spec fn counted(self, i: Instruction) -> Machine {
        let m = Machine { pc: self.next(i), ..self };
        match i {
            Instruction::Inx(p) => m.with_pair(p, wrap16(self.pair(p) + 1)),
            Instruction::Dcx(p) => m.with_pair(p, wrap16(self.pair(p) - 1)),
            Instruction::Dad(p) => m.double_added(self.pair(p)),
            Instruction::Inr(r) => Machine { cc: after_inr(self.cc, self.reg(r)), ..m }.with_reg(
                r,
                wrap8(self.reg(r) + 1),
            ),
            Instruction::Dcr(r) => Machine { cc: after_dcr(self.cc, self.reg(r)), ..m }.with_reg(
                r,
                wrap8(self.reg(r) - 1),
            ),
            _ => m,
        }
    }

    /// The machine after `i`, a rotation or the complement of the accumulator or a
    /// change of Carry, with its opcode fetched.
    pub open spec fn adjusted(self, i: Instruction) -> Machine {
        let m = Machine { pc: self.next(i), ..self };
        match i {
            Instruction::Rlc | Instruction::Rrc | Instruction::Ral | Instruction::Rar => m.rotated(i),
            Instruction::Cma => Machine { a: wrap8(255 - self.a), ..m },
            Instruction::Stc => Machine { cc: ConditionCodes { cy: true, ..self.cc }, ..m },
            Instruction::Cmc => Machine { cc: ConditionCodes { cy: !self.cc.cy, ..self.cc }, ..m },
            _ => m,
        }
    }

    /// The machine after the operation `i` of the arithmetic and logic unit,
    /// with its opcode fetched.
    pub open spec fn operated(self, i: Instruction) -> Machine {
        let m = Machine { pc: self.next(i), ..self };
        match i {
            Instruction::Alu(op, r) => m.alu(op, self.reg(r)),
            Instruction::AluImmediate(op) => m.alu(op, self.imm8()),
            _ => m,
        }
    }

    /// The machine after the jump, call or return `i`, with its opcode fetched.
    /// A call pushes the address of the instruction behind it: the program
    /// counter plus the two bytes of its target.
    pub open spec fn branched(self, i: Instruction) -> Machine {
        let m = Machine { pc: self.next(i), ..self };
        match i {
            Instruction::Ret => Machine { pc: self.top(), ..m.popped() },
            Instruction::RetIf(c) => if self.holds(c) {
                Machine { pc: self.top(), ..m.popped() }
            } else {
                m
            },
            Instruction::Jmp => Machine { pc: self.imm16(), ..m },
            Instruction::JmpIf(c) => if self.holds(c) {
                Machine { pc: self.imm16(), ..m }
            } else {
                m
            },
            Instruction::Call => Machine { pc: self.imm16(), ..m.pushed(self.next(i)) },
            Instruction::CallIf(c) => if self.holds(c) {
                Machine { pc: self.imm16(), ..m.pushed(self.next(i)) }
            } else {
                m
            },
            Instruction::Pchl => Machine { pc: self.hl(), ..m },
            _ => m,
        }
    }

    /// The machine after `i`, one of NOP, IN, OUT, EI and DI, with its opcode
    /// fetched.
    pub open spec fn controlled(self, i: Instruction) -> Machine {
        let m = Machine { pc: self.next(i), ..self };
        match i {
            Instruction::Out => Machine { special: self.special.after_out(self.imm8(), self.a), ..m },
            Instruction::In => Machine { a: self.special.input(self.imm8()), ..m },
            Instruction::Ei => Machine { int_enable: true, ..m },
            Instruction::Di => Machine { int_enable: false, ..m },
            _ => m,
        }
    }

    /// The machine after the instruction `i` took effect, the program counter
    /// standing behind its opcode. The cycle counter is not part of this: see
    /// [`Machine::step`].
    pub open spec fn apply(self, i: Instruction) -> Machine {
        if i.is_transfer() {
            self.transferred(i)
        } else if i.is_counting() {
            self.counted(i)
        } else if i.is_adjusting() {
            self.adjusted(i)
        } else if i.is_branch() {
            self.branched(i)
        } else if i.is_control() {
            self.controlled(i)
        } else {
            self.operated(i)
        }
    }

    /// What the caller is told of the instruction `i` once it has run.
    pub open spec fn event(self, i: Instruction) -> Event {
        match i {
            Instruction::In => if input_port_known(self.imm8()) {
                Event::Executed
            } else {
                Event::InputIgnored { port: self.imm8() }
            },
            Instruction::Out => if output_port_known(self.imm8()) {
                Event::Executed
            } else {
                Event::OutputIgnored { port: self.imm8(), value: self.a }
            },
            _ => Event::Executed,
        }
    }

    /// One instruction whose opcode has been fetched: the program counter stands
    /// behind the opcode, at the operand if the instruction has one. The byte
    /// `opcode` is decoded and the instruction is carried out. The cycle counter
    /// is not touched. An unknown opcode is reported with the address it was
    /// fetched from, one below the program counter.
    pub open spec fn execute(self, opcode: u8) -> Result<(Machine, Event), Fault> {
        match decoded(opcode) {
            None => Err(Fault::UnknownOpcode { opcode, pc: wrap16(self.pc - 1) }),
            Some(i) => match self.fault(i) {
                Some(f) => Err(f),
                None => Ok((self.apply(i), self.event(i))),
            },
        }
    }

    /// The address that the next interrupt continues at: 0x08 and 0x10 in turn.
    pub open spec fn vector(self) -> u16 {
        if self.int_type {
            0x10
        } else {
            0x08
        }
    }

    /// The end of half a frame: half a frame leaves the cycle counter. With
    /// interrupts enabled the interrupt is taken: the program counter is pushed,
    /// the program continues at the vector of the slot, the slot changes over,
    /// and interrupts are disabled until the program enables them again. With
    /// interrupts disabled nothing else changes: the slot stays.
    pub open spec fn interrupt(self) -> Result<(Machine, Event), Fault> {
        let m = Machine { cycles: self.cycles - HALF_FRAME, ..self };
        if !self.int_enable {
            Ok((m, Event::InterruptMasked))
        } else {
            match store_word_fault(wrap16(self.sp - 2) as int, self.pc) {
                Some(f) => Err(f),
                None => Ok(
                    (
                        Machine {
                            pc: self.vector(),
                            int_enable: false,
                            int_type: !self.int_type,
                            ..m.pushed(self.pc)
                        },
                        Event::Interrupt { vector: self.vector() },
                    ),
                ),
            }
        }
    }

    /// The machine after the opcode at the program counter was fetched.
    pub open spec fn fetched(self) -> Machine {
        Machine { pc: (self.pc + 1) as u16, ..self }
    }

    /// One step of the paced machine. While the half frame has cycles left: the
    /// opcode at the program counter is fetched, the instruction is carried out,
    /// and its cost is added to the cycle counter. Once the half frame has no
    /// cycles left: the interrupt.
    pub open spec fn step(self) -> Result<(Machine, Event), Fault> {
        if self.cycles >= HALF_FRAME {
            self.interrupt()
        } else if !readable(self.pc as int) {
            Err(Fault::ReadOutOfRange { address: self.pc })
        } else {
            let opcode = self.memory[self.pc as int];
            match self.fetched().execute(opcode) {
                Err(f) => Err(f),
                Ok((m, e)) => Ok(
                    (
                        Machine {
                            cycles: self.cycles + cycle_cost(opcode, self.fetched().takes(opcode)),
                            ..m
                        },
                        e,
                    ),
                ),
            }
        }
    }

    /// The machine run to the end of the current half frame: step after step
    /// until the interrupt has been dealt with, or until a step faults. The result
    /// is the machine where the run ended, with what the last step did: the
    /// interrupt, taken or masked, or the fault.
    pub open spec fn run_half_frame(self) -> (Machine, Result<Event, Fault>)
        decreases
            (if self.cycles < HALF_FRAME {
                HALF_FRAME - self.cycles
            } else {
                0
            }),
    {
        match self.step() {
            Err(f) => (self, Err(f)),
            Ok((m, e)) => if self.cycles >= HALF_FRAME {
                (m, Ok(e))
            } else {
                proof {
                    lemma_cost_bounds(self.memory[self.pc as int], true);
                    lemma_cost_bounds(self.memory[self.pc as int], false);
                }
                m.run_half_frame()
            },
        }
    }

    /// The machine run for one video frame: two half frames. The result is the
    /// machine where the run ended, with the two interrupts of the frame in their
    /// order, or the fault that ended the run.
    pub open spec fn run_frame(self) -> (Machine, Result<(Event, Event), Fault>) {
        let first = self.run_half_frame();
        match first.1 {
            Err(f) => (first.0, Err(f)),
            Ok(e1) => {
                let second = first.0.run_half_frame();
                match second.1 {
                    Err(f) => (second.0, Err(f)),
                    Ok(e2) => (second.0, Ok((e1, e2))),
                }
            },
        }
    }

    /// The cycle counter is where pacing keeps it: below the half-frame budget
    /// plus the cost of the one instruction that may overrun it.
    pub open spec fn paced(self) -> bool {
        self.cycles < HALF_FRAME + MAX_COST
    }
}

/// Every instruction costs between 4 and 18 cycles.
#[verifier::rlimit(50)]
pub proof fn lemma_cost_bounds(opcode: u8, taken: bool)
    ensures
        4 <= cycle_cost(opcode, taken) <= MAX_COST,
{
}

} // verus!
