//! The instruction set: what each opcode byte stands for, how many bytes the
//! instruction takes and how many clock cycles it costs.

use vstd::prelude::*;

verus! {

/// An 8-bit operand, by its three-bit code in the opcode: 0 to 5 are the registers
/// B, C, D, E, H and L, 6 is the memory byte that HL addresses (M), 7 is the
/// accumulator A.
#[derive(Clone, Copy, Debug, PartialEq, Eq)]
pub struct Register {
    pub register: u8,
}

/// A 16-bit register pair.
#[derive(Clone, Copy, Debug, PartialEq, Eq)]
pub enum Pair {
    BC,
    DE,
    HL,
    SP,
}

/// A pair that PUSH and POP move: the fourth is the accumulator with the status byte.
#[derive(Clone, Copy, Debug, PartialEq, Eq)]
pub enum StackPair {
    BC,
    DE,
    HL,
    PSW,
}

/// The test of a conditional jump, call or return.
#[derive(Clone, Copy, Debug, PartialEq, Eq)]
pub enum Condition {
    NotZero,
    Zero,
    NoCarry,
    Carry,
    ParityOdd,
    ParityEven,
    Plus,
    Minus,
}

/// An operation of the arithmetic and logic unit on the accumulator and one operand.
#[derive(Clone, Copy, Debug, PartialEq, Eq)]
pub enum AluOp {
    Add,
    AddCarry,
    Sub,
    SubBorrow,
    And,
    Xor,
    Or,
    Compare,
}

/// A decoded instruction. Immediate operands are not part of it: they are the
/// bytes that follow the opcode.
#[derive(Clone, Copy, Debug, PartialEq, Eq)]
pub enum Instruction {
    Nop,
    Lxi(Pair),
    Stax(Pair),
    Ldax(Pair),
    Inx(Pair),
    Dcx(Pair),
    Dad(Pair),
    Inr(Register),
    Dcr(Register),
    Mvi(Register),
    Rlc,
    Rrc,
    Ral,
    Rar,
    Shld,
    Lhld,
    Sta,
    Lda,
    Cma,
    Stc,
    Cmc,
    /// MOV destination, source.
    Mov(Register, Register),
    Alu(AluOp, Register),
    AluImmediate(AluOp),
    Ret,
    RetIf(Condition),
    Jmp,
    JmpIf(Condition),
    Call,
    CallIf(Condition),
    Push(StackPair),
    Pop(StackPair),
    Out,
    In,
    Xthl,
    Xchg,
    Pchl,
    Sphl,
    Ei,
    Di,
}

/// The operand code of the memory byte that HL addresses.
pub const M: u8 = 6;

/// The cycles that a conditional call or return saves when its condition fails.
pub const UNTAKEN_DISCOUNT: u8 = 6;

/// The highest entry of [`CYCLES`].
pub const MAX_COST: u8 = 18;

/// Clock cycles by opcode. The entry of a conditional call or return is the cost
/// of the taken branch.
pub const CYCLES: [u8; 256] = [
    4, 10, 7, 5, 5, 5, 7, 4, 4, 10, 7, 5, 5, 5, 7, 4,  //
    4, 10, 7, 5, 5, 5, 7, 4, 4, 10, 7, 5, 5, 5, 7, 4,  //
    4, 10, 16, 5, 5, 5, 7, 4, 4, 10, 16, 5, 5, 5, 7, 4,  //
    4, 10, 13, 5, 10, 10, 10, 4, 4, 10, 13, 5, 5, 5, 7, 4,  //
    5, 5, 5, 5, 5, 5, 7, 5, 5, 5, 5, 5, 5, 5, 7, 5,  //
    5, 5, 5, 5, 5, 5, 7, 5, 5, 5, 5, 5, 5, 5, 7, 5,  //
    5, 5, 5, 5, 5, 5, 7, 5, 5, 5, 5, 5, 5, 5, 7, 5,  //
    7, 7, 7, 7, 7, 7, 7, 7, 5, 5, 5, 5, 5, 5, 7, 5,  //
    4, 4, 4, 4, 4, 4, 7, 4, 4, 4, 4, 4, 4, 4, 7, 4,  //
    4, 4, 4, 4, 4, 4, 7, 4, 4, 4, 4, 4, 4, 4, 7, 4,  //
    4, 4, 4, 4, 4, 4, 7, 4, 4, 4, 4, 4, 4, 4, 7, 4,  //
    4, 4, 4, 4, 4, 4, 7, 4, 4, 4, 4, 4, 4, 4, 7, 4,  //
    11, 10, 10, 10, 17, 11, 7, 11, 11, 10, 10, 10, 17, 17, 7, 11,  //
    11, 10, 10, 10, 17, 11, 7, 11, 11, 10, 10, 10, 17, 17, 7, 11,  //
    11, 10, 10, 18, 17, 11, 7, 11, 11, 5, 10, 5, 17, 17, 7, 11,  //
    11, 10, 10, 4, 17, 11, 7, 11, 11, 5, 10, 4, 17, 17, 7, 11,  //
];

/// Instruction length in bytes by opcode.
pub const SIZE: [u8; 256] = [
    1, 3, 1, 1, 1, 1, 2, 1, 1, 1, 1, 1, 1, 1, 2, 1,  //
    1, 3, 1, 1, 1, 1, 2, 1, 1, 1, 1, 1, 1, 1, 2, 1,  //
    1, 3, 3, 1, 1, 1, 2, 1, 1, 1, 3, 1, 1, 1, 2, 1,  //
    1, 3, 3, 1, 1, 1, 2, 1, 1, 1, 3, 1, 1, 1, 2, 1,  //
    1, 1, 1, 1, 1, 1, 1, 1, 1, 1, 1, 1, 1, 1, 1, 1,  //
    1, 1, 1, 1, 1, 1, 1, 1, 1, 1, 1, 1, 1, 1, 1, 1,  //
    1, 1, 1, 1, 1, 1, 1, 1, 1, 1, 1, 1, 1, 1, 1, 1,  //
    1, 1, 1, 1, 1, 1, 1, 1, 1, 1, 1, 1, 1, 1, 1, 1,  //
    1, 1, 1, 1, 1, 1, 1, 1, 1, 1, 1, 1, 1, 1, 1, 1,  //
    1, 1, 1, 1, 1, 1, 1, 1, 1, 1, 1, 1, 1, 1, 1, 1,  //
    1, 1, 1, 1, 1, 1, 1, 1, 1, 1, 1, 1, 1, 1, 1, 1,  //
    1, 1, 1, 1, 1, 1, 1, 1, 1, 1, 1, 1, 1, 1, 1, 1,  //
    1, 1, 3, 3, 3, 1, 2, 1, 1, 1, 3, 3, 3, 3, 2, 1,  //
    1, 1, 3, 2, 3, 1, 2, 1, 1, 1, 3, 2, 3, 3, 2, 1,  //
    1, 1, 3, 1, 3, 1, 2, 1, 1, 1, 3, 1, 3, 3, 2, 1,  //
    1, 1, 3, 1, 3, 1, 2, 1, 1, 1, 3, 1, 3, 3, 2, 1,  //
];

/// The register pair with the two-bit code `code`.
pub open spec fn pair_of(code: int) -> Pair {
    if code == 0 {
        Pair::BC
    } else if code == 1 {
        Pair::DE
    } else if code == 2 {
        Pair::HL
    } else {
        Pair::SP
    }
}

/// The pair of PUSH and POP with the two-bit code `code`.
pub open spec fn stack_pair_of(code: int) -> StackPair {
    if code == 0 {
        StackPair::BC
    } else if code == 1 {
        StackPair::DE
    } else if code == 2 {
        StackPair::HL
    } else {
        StackPair::PSW
    }
}

/// The condition with the three-bit code `code`.
pub open spec fn condition_of(code: int) -> Condition {
    if code == 0 {
        Condition::NotZero
    } else if code == 1 {
        Condition::Zero
    } else if code == 2 {
        Condition::NoCarry
    } else if code == 3 {
        Condition::Carry
    } else if code == 4 {
        Condition::ParityOdd
    } else if code == 5 {
        Condition::ParityEven
    } else if code == 6 {
        Condition::Plus
    } else {
        Condition::Minus
    }
}

/// The arithmetic or logical operation with the three-bit code `code`.
pub open spec fn alu_op_of(code: int) -> AluOp {
    if code == 0 {
        AluOp::Add
    } else if code == 1 {
        AluOp::AddCarry
    } else if code == 2 {
        AluOp::Sub
    } else if code == 3 {
        AluOp::SubBorrow
    } else if code == 4 {
        AluOp::And
    } else if code == 5 {
        AluOp::Xor
    } else if code == 6 {
        AluOp::Or
    } else {
        AluOp::Compare
    }
}

/// What the opcode byte stands for, read as the three fields of its encoding:
/// the top two bits choose the group, the middle three and the low three bits
/// choose the instruction and its operands. `None` marks the bytes that this
/// processor does not execute: the undocumented ones, DAA, HLT and RST.
pub open spec fn decoded(opcode: u8) -> Option<Instruction> {
    let group = opcode as int / 64;
    let mid = (opcode as int / 8) % 8;
    let low = opcode as int % 8;
    if group == 1 {
        if opcode == 0x76 {
            None
        } else {
            Some(Instruction::Mov(Register { register: mid as u8 }, Register { register: low as u8 }))
        }
    } else if group == 2 {
        Some(Instruction::Alu(alu_op_of(mid), Register { register: low as u8 }))
    } else if group == 0 {
        if low == 0 {
            if mid == 0 {
                Some(Instruction::Nop)
            } else {
                None
            }
        } else if low == 1 {
            if mid % 2 == 0 {
                Some(Instruction::Lxi(pair_of(mid / 2)))
            } else {
                Some(Instruction::Dad(pair_of(mid / 2)))
            }
        } else if low == 2 {
            if mid == 0 {
                Some(Instruction::Stax(Pair::BC))
            } else if mid == 1 {
                Some(Instruction::Ldax(Pair::BC))
            } else if mid == 2 {
                Some(Instruction::Stax(Pair::DE))
            } else if mid == 3 {
                Some(Instruction::Ldax(Pair::DE))
            } else if mid == 4 {
                Some(Instruction::Shld)
            } else if mid == 5 {
                Some(Instruction::Lhld)
            } else if mid == 6 {
                Some(Instruction::Sta)
            } else {
                Some(Instruction::Lda)
            }
        } else if low == 3 {
            if mid % 2 == 0 {
                Some(Instruction::Inx(pair_of(mid / 2)))
            } else {
                Some(Instruction::Dcx(pair_of(mid / 2)))
            }
        } else if low == 4 {
            Some(Instruction::Inr(Register { register: mid as u8 }))
        } else if low == 5 {
            Some(Instruction::Dcr(Register { register: mid as u8 }))
        } else if low == 6 {
            Some(Instruction::Mvi(Register { register: mid as u8 }))
        } else {
            if mid == 0 {
                Some(Instruction::Rlc)
            } else if mid == 1 {
                Some(Instruction::Rrc)
            } else if mid == 2 {
                Some(Instruction::Ral)
            } else if mid == 3 {
                Some(Instruction::Rar)
            } else if mid == 4 {
                None
            } else if mid == 5 {
                Some(Instruction::Cma)
            } else if mid == 6 {
                Some(Instruction::Stc)
            } else {
                Some(Instruction::Cmc)
            }
        }
    } else {
        if low == 0 {
            Some(Instruction::RetIf(condition_of(mid)))
        } else if low == 1 {
            if mid % 2 == 0 {
                Some(Instruction::Pop(stack_pair_of(mid / 2)))
            } else if mid == 1 {
                Some(Instruction::Ret)
            } else if mid == 5 {
                Some(Instruction::Pchl)
            } else if mid == 7 {
                Some(Instruction::Sphl)
            } else {
                None
            }
        } else if low == 2 {
            Some(Instruction::JmpIf(condition_of(mid)))
        } else if low == 3 {
            if mid == 0 {
                Some(Instruction::Jmp)
            } else if mid == 1 {
                None
            } else if mid == 2 {
                Some(Instruction::Out)
            } else if mid == 3 {
                Some(Instruction::In)
            } else if mid == 4 {
                Some(Instruction::Xthl)
            } else if mid == 5 {
                Some(Instruction::Xchg)
            } else if mid == 6 {
                Some(Instruction::Di)
            } else {
                Some(Instruction::Ei)
            }
        } else if low == 4 {
            Some(Instruction::CallIf(condition_of(mid)))
        } else if low == 5 {
            if mid % 2 == 0 {
                Some(Instruction::Push(stack_pair_of(mid / 2)))
            } else if mid == 1 {
                Some(Instruction::Call)
            } else {
                None
            }
        } else if low == 6 {
            Some(Instruction::AluImmediate(alu_op_of(mid)))
        } else {
            None
        }
    }
}

impl Register {
    /// The code is one of the eight operand codes.
    pub open spec fn wf(self) -> bool {
        self.register < 8
    }

    /// The operand is the memory byte that HL addresses.
    pub open spec fn is_memory(self) -> bool {
        self.register == M
    }
}

impl Instruction {
    /// The operand codes in the instruction are among the eight that exist.
    pub open spec fn wf(self) -> bool {
        match self {
            Instruction::Inr(r) | Instruction::Dcr(r) | Instruction::Mvi(r) | Instruction::Alu(
                _,
                r,
            ) => r.wf(),
            Instruction::Mov(d, s) => d.wf() && s.wf(),
            _ => true,
        }
    }

    /// The bytes that the instruction takes: the opcode and its immediate operand.
    pub open spec fn width(self) -> int {
        match self {
            Instruction::Lxi(_)
            | Instruction::Shld
            | Instruction::Lhld
            | Instruction::Sta
            | Instruction::Lda
            | Instruction::Jmp
            | Instruction::JmpIf(_)
            | Instruction::Call
            | Instruction::CallIf(_) => 3,
            Instruction::Mvi(_) | Instruction::AluImmediate(_) | Instruction::Out | Instruction::In => 2,
            _ => 1,
        }
    }

    /// The instructions that move data between registers, memory and the stack.
    pub open spec fn is_transfer(self) -> bool {
        self is Lxi || self is Stax || self is Ldax || self is Mvi || self is Shld || self is Lhld
            || self is Sta || self is Lda || self is Mov || self is Push || self is Pop
            || self is Xthl || self is Xchg || self is Sphl
    }

    /// The instructions that count a register, a byte of memory or a register
    /// pair up or down, and the addition of pairs.
    pub open spec fn is_counting(self) -> bool {
        self is Inx || self is Dcx || self is Dad || self is Inr || self is Dcr
    }

    /// The instructions that rotate or complement the accumulator or set Carry.
    pub open spec fn is_adjusting(self) -> bool {
        self is Rlc || self is Rrc || self is Ral || self is Rar || self is Cma || self is Stc
            || self is Cmc
    }

    /// The instructions that may change where the program continues.
    pub open spec fn is_branch(self) -> bool {
        self is Ret || self is RetIf || self is Jmp || self is JmpIf || self is Call
            || self is CallIf || self is Pchl
    }

    /// The instructions that work on the ports and the interrupt switch, and NOP.
    pub open spec fn is_control(self) -> bool {
        self is Nop || self is Out || self is In || self is Ei || self is Di
    }

    /// Whether the instruction is a conditional call or return, which costs less
    /// when its condition fails.
    pub open spec fn discounted(self) -> bool {
        self is CallIf || self is RetIf
    }
}

/// The clock cycles that the instruction with this opcode costs; `taken` says
/// whether a conditional call or return went through.
pub open spec fn cycle_cost(opcode: u8, taken: bool) -> int {
    match decoded(opcode) {
        Some(i) if i.discounted() && !taken => CYCLES@[opcode as int] - UNTAKEN_DISCOUNT,
        _ => CYCLES@[opcode as int] as int,
    }
}

proof fn lemma_fields(opcode: u8)
    by (bit_vector)
    ensures
        opcode & 7 == opcode % 8,
        (opcode >> 3) & 7 == (opcode / 8) % 8,
{
}

/// Decodes an opcode byte.
#[verifier::rlimit(50)]
pub fn decode(opcode: u8) -> (r: Option<Instruction>)
    ensures
        r == decoded(opcode),
        r matches Some(i) ==> i.wf(),
{
    proof {
        lemma_fields(opcode);
    }
    let dst = Register { register: (opcode >> 3) & 7 };
    let src = Register { register: opcode & 7 };
    match opcode {
        0x00 => Some(Instruction::Nop),
        0x01 => Some(Instruction::Lxi(Pair::BC)),
        0x11 => Some(Instruction::Lxi(Pair::DE)),
        0x21 => Some(Instruction::Lxi(Pair::HL)),
        0x31 => Some(Instruction::Lxi(Pair::SP)),
        0x02 => Some(Instruction::Stax(Pair::BC)),
        0x12 => Some(Instruction::Stax(Pair::DE)),
        0x0a => Some(Instruction::Ldax(Pair::BC)),
        0x1a => Some(Instruction::Ldax(Pair::DE)),
        0x22 => Some(Instruction::Shld),
        0x2a => Some(Instruction::Lhld),
        0x32 => Some(Instruction::Sta),
        0x3a => Some(Instruction::Lda),
        0x03 => Some(Instruction::Inx(Pair::BC)),
        0x13 => Some(Instruction::Inx(Pair::DE)),
        0x23 => Some(Instruction::Inx(Pair::HL)),
        0x33 => Some(Instruction::Inx(Pair::SP)),
        0x0b => Some(Instruction::Dcx(Pair::BC)),
        0x1b => Some(Instruction::Dcx(Pair::DE)),
        0x2b => Some(Instruction::Dcx(Pair::HL)),
        0x3b => Some(Instruction::Dcx(Pair::SP)),
        0x09 => Some(Instruction::Dad(Pair::BC)),
        0x19 => Some(Instruction::Dad(Pair::DE)),
        0x29 => Some(Instruction::Dad(Pair::HL)),
        0x39 => Some(Instruction::Dad(Pair::SP)),
        0x04 | 0x0c | 0x14 | 0x1c | 0x24 | 0x2c | 0x34 | 0x3c => Some(Instruction::Inr(dst)),
        0x05 | 0x0d | 0x15 | 0x1d | 0x25 | 0x2d | 0x35 | 0x3d => Some(Instruction::Dcr(dst)),
        0x06 | 0x0e | 0x16 | 0x1e | 0x26 | 0x2e | 0x36 | 0x3e => Some(Instruction::Mvi(dst)),
        0x07 => Some(Instruction::Rlc),
        0x0f => Some(Instruction::Rrc),
        0x17 => Some(Instruction::Ral),
        0x1f => Some(Instruction::Rar),
        0x2f => Some(Instruction::Cma),
        0x37 => Some(Instruction::Stc),
        0x3f => Some(Instruction::Cmc),
        0x76 => None,
        0x40..=0x7f => Some(Instruction::Mov(dst, src)),
        0x80..=0x87 => Some(Instruction::Alu(AluOp::Add, src)),
        0x88..=0x8f => Some(Instruction::Alu(AluOp::AddCarry, src)),
        0x90..=0x97 => Some(Instruction::Alu(AluOp::Sub, src)),
        0x98..=0x9f => Some(Instruction::Alu(AluOp::SubBorrow, src)),
        0xa0..=0xa7 => Some(Instruction::Alu(AluOp::And, src)),
        0xa8..=0xaf => Some(Instruction::Alu(AluOp::Xor, src)),
        0xb0..=0xb7 => Some(Instruction::Alu(AluOp::Or, src)),
        0xb8..=0xbf => Some(Instruction::Alu(AluOp::Compare, src)),
        0xc6 => Some(Instruction::AluImmediate(AluOp::Add)),
        0xce => Some(Instruction::AluImmediate(AluOp::AddCarry)),
        0xd6 => Some(Instruction::AluImmediate(AluOp::Sub)),
        0xde => Some(Instruction::AluImmediate(AluOp::SubBorrow)),
        0xe6 => Some(Instruction::AluImmediate(AluOp::And)),
        0xee => Some(Instruction::AluImmediate(AluOp::Xor)),
        0xf6 => Some(Instruction::AluImmediate(AluOp::Or)),
        0xfe => Some(Instruction::AluImmediate(AluOp::Compare)),
        0xc0 => Some(Instruction::RetIf(Condition::NotZero)),
        0xc8 => Some(Instruction::RetIf(Condition::Zero)),
        0xd0 => Some(Instruction::RetIf(Condition::NoCarry)),
        0xd8 => Some(Instruction::RetIf(Condition::Carry)),
        0xe0 => Some(Instruction::RetIf(Condition::ParityOdd)),
        0xe8 => Some(Instruction::RetIf(Condition::ParityEven)),
        0xf0 => Some(Instruction::RetIf(Condition::Plus)),
        0xf8 => Some(Instruction::RetIf(Condition::Minus)),
        0xc9 => Some(Instruction::Ret),
        0xc2 => Some(Instruction::JmpIf(Condition::NotZero)),
        0xca => Some(Instruction::JmpIf(Condition::Zero)),
        0xd2 => Some(Instruction::JmpIf(Condition::NoCarry)),
        0xda => Some(Instruction::JmpIf(Condition::Carry)),
        0xe2 => Some(Instruction::JmpIf(Condition::ParityOdd)),
        0xea => Some(Instruction::JmpIf(Condition::ParityEven)),
        0xf2 => Some(Instruction::JmpIf(Condition::Plus)),
        0xfa => Some(Instruction::JmpIf(Condition::Minus)),
        0xc3 => Some(Instruction::Jmp),
        0xc4 => Some(Instruction::CallIf(Condition::NotZero)),
        0xcc => Some(Instruction::CallIf(Condition::Zero)),
        0xd4 => Some(Instruction::CallIf(Condition::NoCarry)),
        0xdc => Some(Instruction::CallIf(Condition::Carry)),
        0xe4 => Some(Instruction::CallIf(Condition::ParityOdd)),
        0xec => Some(Instruction::CallIf(Condition::ParityEven)),
        0xf4 => Some(Instruction::CallIf(Condition::Plus)),
        0xfc => Some(Instruction::CallIf(Condition::Minus)),
        0xcd => Some(Instruction::Call),
        0xc5 => Some(Instruction::Push(StackPair::BC)),
        0xd5 => Some(Instruction::Push(StackPair::DE)),
        0xe5 => Some(Instruction::Push(StackPair::HL)),
        0xf5 => Some(Instruction::Push(StackPair::PSW)),
        0xc1 => Some(Instruction::Pop(StackPair::BC)),
        0xd1 => Some(Instruction::Pop(StackPair::DE)),
        0xe1 => Some(Instruction::Pop(StackPair::HL)),
        0xf1 => Some(Instruction::Pop(StackPair::PSW)),
        0xd3 => Some(Instruction::Out),
        0xdb => Some(Instruction::In),
        0xe3 => Some(Instruction::Xthl),
        0xeb => Some(Instruction::Xchg),
        0xe9 => Some(Instruction::Pchl),
        0xf9 => Some(Instruction::Sphl),
        0xfb => Some(Instruction::Ei),
        0xf3 => Some(Instruction::Di),
        _ => None,
    }
}

/// The length in bytes of the instruction with this opcode, from the size table.
#[verifier::rlimit(50)]
pub fn size(opcode: u8) -> (n: u8)
    ensures
        n == SIZE@[opcode as int],
        1 <= n <= 3,
        decoded(opcode) matches Some(i) ==> n == i.width(),
{
    SIZE[opcode as usize]
}

/// The clock cycles of the instruction with this opcode, from the cycle table,
/// less the discount of a conditional call or return that was not taken.
#[verifier::rlimit(50)]
pub fn cycles(opcode: u8, taken: bool) -> (n: u8)
    ensures
        n == cycle_cost(opcode, taken),
        4 <= n <= MAX_COST,
{
    let full: u8 = CYCLES[opcode as usize];
    match decode(opcode) {
        Some(Instruction::CallIf(_)) | Some(Instruction::RetIf(_)) => {
            if taken {
                full
            } else {
                full - UNTAKEN_DISCOUNT
            }
        },
        _ => full,
    }
}

} // verus!
