//! What holds of the machine whatever its state: laws that relate several instructions.

use crate::cpu::bits::{lemma_parts_of_word, lemma_word_parts, wrap16};
use crate::cpu::flags::lemma_psw_round_trip;
use crate::cpu::machine::{lemma_cost_bounds, store_word_fault, Event, Machine, HALF_FRAME};
use crate::cpu::memory::{lemma_word_round_trip, readable, word_at};
use crate::cpu::opcode::{decoded, Instruction, Pair, StackPair, MAX_COST};
use vstd::prelude::*;

verus! {

/// A register pair holds the word that was put in it.
pub proof fn lemma_pair_holds(m: Machine, p: Pair, v: u16)
    ensures
        m.with_pair(p, v).pair(p) == v,
{
    lemma_parts_of_word(crate::cpu::bits::high(v), crate::cpu::bits::low(v));
    lemma_word_parts(v);
}

/// INX and DCX count a register pair up and down modulo 65536, change no flag,
/// and, having no operand, leave the program counter where the fetch left it.
pub proof fn lemma_pair_counting(m: Machine, p: Pair)
    ensures
        m.apply(Instruction::Inx(p)).pair(p) == (m.pair(p) + 1) % 65536,
        m.apply(Instruction::Dcx(p)).pair(p) == (m.pair(p) - 1) % 65536,
        m.apply(Instruction::Inx(p)).cc == m.cc,
        m.apply(Instruction::Dcx(p)).cc == m.cc,
        m.apply(Instruction::Inx(p)) == m.with_pair(p, wrap16(m.pair(p) + 1)),
        m.apply(Instruction::Dcx(p)) == m.with_pair(p, wrap16(m.pair(p) - 1)),
        m.fault(Instruction::Inx(p)) is None,
        m.fault(Instruction::Dcx(p)) is None,
{
    lemma_pair_holds(m, p, wrap16(m.pair(p) + 1));
    lemma_pair_holds(m, p, wrap16(m.pair(p) - 1));
}

/// A word that was pushed is on top of the stack, and taking it off puts the
/// stack pointer back.
pub proof fn lemma_push_pop(m: Machine, v: u16)
    requires
        m.wf(),
        store_word_fault(wrap16(m.sp - 2) as int, v) is None,
    ensures
        m.pushed(v).top() == v,
        m.pushed(v).popped().sp == m.sp,
{
    lemma_word_round_trip(m.memory, wrap16(m.sp - 2) as int, v);
}

/// PUSH followed by POP of the same pair, the accumulator with the flags too,
/// gives the pair the value it had: every register, every flag and the stack
/// pointer are as before the PUSH.
#[verifier::rlimit(50)]
pub proof fn lemma_push_then_pop(m: Machine, p: StackPair)
    requires
        m.wf(),
        m.fault(Instruction::Push(p)) is None,
    ensures
        ({
            let after = m.apply(Instruction::Push(p)).apply(Instruction::Pop(p));
            &&& after.stack_pair(p) == m.stack_pair(p)
            &&& after == (Machine { pc: after.pc, memory: after.memory, ..m })
        }),
{
    let v = m.stack_pair(p);
    let pushed = m.apply(Instruction::Push(p));
    lemma_push_pop(Machine { pc: m.next(Instruction::Push(p)), ..m }, v);
    lemma_word_parts(v);
    lemma_parts_of_word(m.b, m.c);
    lemma_parts_of_word(m.d, m.e);
    lemma_parts_of_word(m.h, m.l);
    lemma_parts_of_word(m.a, m.cc.psw());
    lemma_psw_round_trip(m.cc);
}

/// CALL followed by RET continues at the instruction behind the CALL. With the
/// opcode of the CALL fetched, the program counter stands at its target, two
/// bytes before that instruction; the stack pointer ends where it was.
#[verifier::rlimit(50)]
pub proof fn lemma_call_then_ret(m: Machine)
    requires
        m.wf(),
        m.fault(Instruction::Call) is None,
    ensures
        decoded(0xcd) == Some(Instruction::Call),
        decoded(0xc9) == Some(Instruction::Ret),
        m.apply(Instruction::Call).pc == m.imm16(),
        m.apply(Instruction::Call).apply(Instruction::Ret).pc == m.pc + 2,
        m.apply(Instruction::Call).apply(Instruction::Ret).sp == m.sp,
{
    lemma_push_pop(Machine { pc: m.next(Instruction::Call), ..m }, m.next(Instruction::Call));
}

/// A step that runs a CALL, followed by a step that runs a RET, continues three
/// bytes on from where the CALL stands, with the stack pointer where it was.
#[verifier::rlimit(50)]
pub proof fn lemma_call_then_ret_steps(m: Machine)
    requires
        m.wf(),
        m.cycles + 17 < HALF_FRAME,
        readable(m.pc as int),
        m.memory[m.pc as int] == 0xcd,
        m.step() is Ok,
        readable(m.step().unwrap().0.pc as int),
        m.step().unwrap().0.memory[m.step().unwrap().0.pc as int] == 0xc9,
    ensures
        m.step().unwrap().0.pc == word_at(m.memory, m.pc + 1),
        m.step().unwrap().0.step() is Ok,
        m.step().unwrap().0.step().unwrap().0.pc == m.pc + 3,
        m.step().unwrap().0.step().unwrap().0.sp == m.sp,
{
    lemma_call_then_ret(m.fetched());
    lemma_cost_bounds(0xcd, true);
}

/// Only an interrupt that is taken changes the interrupt slot, and it takes the
/// vector of the slot it finds: 0x08 for the first, 0x10 for the second. An
/// interrupt that is masked, and every instruction, leave the slot as it is;
/// the masked interrupt leaves the program counter, the stack and the memory too.
#[verifier::rlimit(50)]
pub proof fn lemma_interrupt_slots(m: Machine)
    requires
        m.step() is Ok,
    ensures
        ({
            let (after, event) = m.step().unwrap();
            &&& (event is Interrupt || event is InterruptMasked) == (m.cycles >= HALF_FRAME)
            &&& (event is Interrupt) == (m.cycles >= HALF_FRAME && m.int_enable)
            &&& after.int_type == (if event is Interrupt {
                !m.int_type
            } else {
                m.int_type
            })
            &&& event is InterruptMasked ==> after == (Machine {
                cycles: m.cycles - HALF_FRAME,
                ..m
            })
            &&& event matches Event::Interrupt { vector } ==> {
                &&& vector == (if m.int_type {
                    0x10u16
                } else {
                    0x08u16
                })
                &&& after.pc == vector
                &&& !after.int_enable
            }
        }),
{
}

/// Pacing is kept by every step, and when a half frame ends the cycle counter
/// is left with the overrun of its last instruction: less than the cost of one.
#[verifier::rlimit(50)]
pub proof fn lemma_step_keeps_pace(m: Machine)
    requires
        m.paced(),
        m.step() is Ok,
    ensures
        m.step().unwrap().0.paced(),
        m.cycles >= HALF_FRAME ==> 0 <= m.step().unwrap().0.cycles < MAX_COST,
        m.cycles < HALF_FRAME ==> m.cycles + 4 <= m.step().unwrap().0.cycles,
{
    if m.cycles < HALF_FRAME {
        lemma_cost_bounds(m.memory[m.pc as int], true);
        lemma_cost_bounds(m.memory[m.pc as int], false);
    }
}

/// A half frame that runs to its end meets one interrupt. If it is taken, it
/// takes the vector of the slot that the half frame started with, and the slot
/// changes over; if it is masked, the slot stays. Either way the cycle counter
/// is left within one instruction's cost of zero.
#[verifier::rlimit(50)]
pub proof fn lemma_half_frame(m: Machine)
    requires
        m.paced(),
        m.run_half_frame().1 is Ok,
    ensures
        ({
            let (after, event) = (m.run_half_frame().0, m.run_half_frame().1.unwrap());
            &&& 0 <= after.cycles < MAX_COST
            &&& event is Interrupt || event is InterruptMasked
            &&& after.int_type == (if event is Interrupt {
                !m.int_type
            } else {
                m.int_type
            })
            &&& event matches Event::Interrupt { vector } ==> {
                &&& vector == (if m.int_type {
                    0x10u16
                } else {
                    0x08u16
                })
                &&& after.pc == vector
            }
        }),
    decreases
        (if m.cycles < HALF_FRAME {
            HALF_FRAME - m.cycles
        } else {
            0
        }),
{
    lemma_interrupt_slots(m);
    lemma_step_keeps_pace(m);
    if m.cycles < HALF_FRAME {
        lemma_half_frame(m.step().unwrap().0);
    }
}

/// A frame that runs to its end has met two interrupts, and after each the
/// cycle counter is within one instruction's cost of zero. With interrupts
/// enabled at both, the two are taken in the two slots in turn: a frame that
/// starts in the first slot takes vector 0x08 and then vector 0x10, and ends in
/// the slot it started with. An interrupt that is masked does not change the
/// slot over: the interrupt after it finds the same slot.
pub proof fn lemma_frame(m: Machine)
    requires
        m.paced(),
        m.run_frame().1 is Ok,
    ensures
        ({
            let middle = m.run_half_frame().0;
            let after = m.run_frame().0;
            let (first, second) = m.run_frame().1.unwrap();
            &&& 0 <= middle.cycles < MAX_COST
            &&& 0 <= after.cycles < MAX_COST
            &&& first is Interrupt || first is InterruptMasked
            &&& second is Interrupt || second is InterruptMasked
            &&& after.int_type == (if (first is Interrupt) == (second is Interrupt) {
                m.int_type
            } else {
                !m.int_type
            })
            &&& first matches Event::Interrupt { vector } ==> vector == (if m.int_type {
                0x10u16
            } else {
                0x08u16
            })
            &&& second matches Event::Interrupt { vector } ==> vector == (if m.int_type
                == (first is Interrupt) {
                0x08u16
            } else {
                0x10u16
            })
            &&& first is Interrupt && second is Interrupt && !m.int_type ==> first
                == (Event::Interrupt { vector: 0x08 }) && second == (Event::Interrupt {
                vector: 0x10,
            })
        }),
{
    lemma_half_frame(m);
    lemma_half_frame(m.run_half_frame().0);
}

} // verus!
