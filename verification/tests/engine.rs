use rust_8080::cpu::flags::ConditionCodes;
use rust_8080::cpu::machine::{Event, Fault};
use rust_8080::cpu::opcode::{
    cycles, decode, size, AluOp, Condition, Instruction, Pair, Register, StackPair,
};
use rust_8080::cpu::state8080::State8080;

fn clear() -> ConditionCodes {
    ConditionCodes { s: false, z: false, ac: false, p: false, cy: false }
}

/// A machine with `program` at address 0 and the stack pointer at 0x2400.
fn machine(program: &[u8]) -> State8080 {
    let mut image = vec![0u8; 0x2000];
    image[..program.len()].copy_from_slice(program);
    let mut cpu = State8080::new();
    assert!(cpu.load_rom(0, 0x1fff, &image));
    cpu.sp = 0x2400;
    cpu
}

fn run(cpu: &mut State8080, steps: usize) {
    for _ in 0..steps {
        assert_eq!(cpu.step(), Ok(Event::Executed));
    }
}

#[test]
fn short_program_adds_five_and_three() {
    let mut cpu = machine(&[0x3e, 0x05, 0x06, 0x03, 0x80]);
    run(&mut cpu, 3);
    assert_eq!(cpu.a, 0x08);
    assert_eq!(cpu.b, 0x03);
    assert!(!cpu.cc.z);
    assert!(!cpu.cc.s);
    assert!(!cpu.cc.cy);
    assert!(!cpu.cc.p);
    assert!(!cpu.cc.ac);
    assert_eq!(cpu.pc, 5);
    assert_eq!(cpu.cycles, 18);
}

#[test]
fn load_rom_fills_the_region() {
    let mut cpu = State8080::new();
    let blob: Vec<u8> = (0..0x800u32).map(|i| (i % 251) as u8).collect();
    assert!(cpu.load_rom(0x0800, 0x0fff, &blob));
    assert_eq!(cpu.memory.memory[0x07ff], 0);
    assert_eq!(cpu.memory.memory[0x0800], 0);
    assert_eq!(cpu.memory.memory[0x0801], 1);
    assert_eq!(cpu.memory.memory[0x0fff], (0x7ffu32 % 251) as u8);
    assert_eq!(cpu.memory.memory[0x1000], 0);
}

#[test]
fn load_rom_refuses_a_short_image() {
    let mut cpu = State8080::new();
    let blob = vec![0xffu8; 0x7ff];
    assert!(!cpu.load_rom(0x0000, 0x07ff, &blob));
    assert!(cpu.memory.memory.iter().all(|b| *b == 0));
}

#[test]
fn load_rom_leaves_out_the_surplus() {
    let mut cpu = State8080::new();
    let blob = vec![0xffu8; 0x801];
    assert!(cpu.load_rom(0x1800, 0x1fff, &blob));
    assert_eq!(cpu.memory.memory[0x17ff], 0);
    assert_eq!(cpu.memory.memory[0x1800], 0xff);
    assert_eq!(cpu.memory.memory[0x1fff], 0xff);
    assert_eq!(cpu.memory.memory[0x2000], 0);
}

#[test]
fn load_rom_of_one_byte() {
    let mut cpu = State8080::new();
    assert!(cpu.load_rom(0x3fff, 0x3fff, &[0x42]));
    assert_eq!(cpu.memory.memory[0x3fff], 0x42);
    assert!(!cpu.load_rom(0x0000, 0x0000, &[]));
}

#[test]
fn register_pairs_join_high_and_low() {
    let mut cpu = State8080::new();
    cpu.set_bc(0x1234);
    cpu.set_de(0x5678);
    cpu.set_hl(0x9abc);
    assert_eq!((cpu.b, cpu.c, cpu.d, cpu.e, cpu.h, cpu.l), (0x12, 0x34, 0x56, 0x78, 0x9a, 0xbc));
    assert_eq!(cpu.get_bc(), 0x1234);
    assert_eq!(cpu.get_de(), 0x5678);
    assert_eq!(cpu.get_hl(), 0x9abc);
    assert_eq!(cpu.pair(Pair::BC), 0x1234);
    assert_eq!(cpu.pair(Pair::SP), 0);
    cpu.set_pair(Pair::SP, 0x2400);
    assert_eq!(cpu.sp, 0x2400);
}

#[test]
fn accumulator_and_flags_pair() {
    let mut cpu = State8080::new();
    cpu.set_af(0x12d7);
    assert_eq!(cpu.a, 0x12);
    assert_eq!(cpu.cc, ConditionCodes { s: true, z: true, ac: true, p: true, cy: true });
    assert_eq!(cpu.get_af(), 0x12d7);
    cpu.set_af(0xff00);
    assert_eq!(cpu.a, 0xff);
    assert_eq!(cpu.cc, clear());
    assert_eq!(cpu.get_af(), 0xff02);
    assert_eq!(cpu.stack_pair(StackPair::PSW), 0xff02);
}

#[test]
fn read_next_moves_the_program_counter() {
    let mut cpu = machine(&[0x11, 0x22, 0x33, 0x44, 0x55]);
    assert_eq!(cpu.read_next(), 0x11);
    assert_eq!(cpu.pc, 1);
    assert_eq!(cpu.read_next_word(), 0x3322);
    assert_eq!(cpu.pc, 3);
    let (mut h, mut l) = (0u8, 0u8);
    cpu.read_next_word_as_u8(&mut h, &mut l);
    assert_eq!((h, l), (0x55, 0x44));
    assert_eq!(cpu.pc, 5);
}

#[test]
fn write_next_moves_the_program_counter() {
    let mut cpu = State8080::new();
    cpu.pc = 0x2000;
    assert!(cpu.write_next(0xaa));
    assert!(cpu.write_next_word(0x12, 0x34));
    assert!(cpu.write_next_word_with_u16(0xbeef));
    assert_eq!(cpu.pc, 0x2005);
    assert_eq!(&cpu.memory.memory[0x2000..0x2005], &[0xaa, 0x34, 0x12, 0xef, 0xbe]);
    cpu.pc = 0x0100;
    assert!(!cpu.write_next(0xaa));
    assert_eq!(cpu.pc, 0x0101);
    assert!(!cpu.write_next_word(1, 2));
    assert_eq!(cpu.pc, 0x0103);
    assert_eq!(cpu.memory.memory[0x0100], 0);
}

#[test]
fn add_of_every_pair_of_bytes_on_the_accumulator() {
    let mut cpu = State8080::new();
    for a in 0u16..=255 {
        for b in 0u16..=255 {
            cpu.a = a as u8;
            cpu.cc = ConditionCodes { cy: true, ..clear() };
            cpu.add(b as u8);
            assert_eq!(cpu.a as u16, (a + b) % 256);
            assert_eq!(cpu.cc.cy, a + b > 255);
        }
    }
}

#[test]
fn sub_of_every_pair_of_bytes_on_the_accumulator() {
    let mut cpu = State8080::new();
    for a in 0u16..=255 {
        for b in 0u16..=255 {
            cpu.a = a as u8;
            cpu.cc = ConditionCodes { cy: true, ..clear() };
            cpu.sub(b as u8);
            let diff = (a as u8).wrapping_sub(b as u8);
            assert_eq!(cpu.a, diff);
            assert_eq!(cpu.a as i32, (a as i32 - b as i32).rem_euclid(256));
            assert_eq!(cpu.cc.cy, a < b);
            assert_eq!(cpu.cc.z, a == b);
            assert_eq!(cpu.cc.s, diff & 0x80 != 0);
            assert_eq!(cpu.cc.p, diff.count_ones() % 2 == 0);
            assert_eq!(cpu.cc.ac, (a & 0xf) >= (b & 0xf));
        }
    }
}

#[test]
fn adc_and_sbb_take_the_carry_in() {
    let mut cpu = State8080::new();
    for a in [0u16, 1, 0x0f, 0x10, 0x7f, 0x80, 0xfe, 0xff] {
        for b in [0u16, 1, 0x0f, 0x10, 0x7f, 0x80, 0xfe, 0xff] {
            for c in [0u16, 1] {
                cpu.a = a as u8;
                cpu.cc = ConditionCodes { cy: c == 1, ..clear() };
                cpu.adc(b as u8);
                assert_eq!(cpu.a as u16, (a + b + c) % 256);
                assert_eq!(cpu.cc.cy, a + b + c > 255);
                assert_eq!(cpu.cc.ac, (a & 0xf) + (b & 0xf) + c > 0xf);
                cpu.a = a as u8;
                cpu.cc = ConditionCodes { cy: c == 1, ..clear() };
                cpu.sbb(b as u8);
                assert_eq!(cpu.a as i32, (a as i32 - b as i32 - c as i32).rem_euclid(256));
                assert_eq!(cpu.cc.cy, a < b + c);
                assert_eq!(cpu.cc.ac, (a & 0xf) >= (b & 0xf) + c);
            }
        }
    }
}

#[test]
fn compare_keeps_the_accumulator() {
    let mut cpu = State8080::new();
    cpu.a = 0x10;
    cpu.cmp(0x10);
    assert_eq!(cpu.a, 0x10);
    assert_eq!(cpu.cc, ConditionCodes { s: false, z: true, ac: true, p: true, cy: false });
    cpu.cmp(0x11);
    assert_eq!(cpu.a, 0x10);
    assert_eq!(cpu.cc, ConditionCodes { s: true, z: false, ac: false, p: true, cy: true });
    cpu.alu(AluOp::Compare, 0x01);
    assert_eq!(cpu.a, 0x10);
    assert_eq!(cpu.cc, ConditionCodes { s: false, z: false, ac: false, p: true, cy: false });
}

#[test]
fn logic_on_the_accumulator() {
    let mut cpu = State8080::new();
    cpu.a = 0x3c;
    cpu.cc.cy = true;
    cpu.ana(0x0f);
    assert_eq!(cpu.a, 0x0c);
    assert_eq!(cpu.cc, ConditionCodes { s: false, z: false, ac: true, p: true, cy: false });
    cpu.xra(0x0c);
    assert_eq!(cpu.a, 0x00);
    assert_eq!(cpu.cc, ConditionCodes { s: false, z: true, ac: false, p: true, cy: false });
    cpu.ora(0x80);
    assert_eq!(cpu.a, 0x80);
    assert_eq!(cpu.cc, ConditionCodes { s: true, z: false, ac: false, p: false, cy: false });
}

#[test]
fn increment_and_decrement_return_the_result() {
    let mut cpu = State8080::new();
    cpu.cc.cy = true;
    assert_eq!(cpu.inr(0x0f), 0x10);
    assert_eq!(cpu.cc, ConditionCodes { s: false, z: false, ac: true, p: false, cy: true });
    assert_eq!(cpu.inr_m(0xff), 0x00);
    assert_eq!(cpu.cc, ConditionCodes { s: false, z: true, ac: true, p: true, cy: true });
    assert_eq!(cpu.dcr(0x00), 0xff);
    assert_eq!(cpu.cc, ConditionCodes { s: true, z: false, ac: false, p: true, cy: true });
    assert_eq!(cpu.dcr_m(0x21), 0x20);
    assert_eq!(cpu.cc, ConditionCodes { s: false, z: false, ac: true, p: false, cy: true });
}

#[test]
fn rotations() {
    let mut cpu = State8080::new();
    cpu.a = 0x81;
    cpu.rlc();
    assert_eq!((cpu.a, cpu.cc.cy), (0x03, true));
    cpu.a = 0x81;
    cpu.cc.cy = false;
    cpu.rrc();
    assert_eq!((cpu.a, cpu.cc.cy), (0xc0, true));
    cpu.a = 0x81;
    cpu.cc.cy = false;
    cpu.ral();
    assert_eq!((cpu.a, cpu.cc.cy), (0x02, true));
    cpu.ral();
    assert_eq!((cpu.a, cpu.cc.cy), (0x05, false));
    cpu.a = 0x81;
    cpu.cc.cy = false;
    cpu.rar();
    assert_eq!((cpu.a, cpu.cc.cy), (0x40, true));
    cpu.rar();
    assert_eq!((cpu.a, cpu.cc.cy), (0xa0, false));
    cpu.a = 0x40;
    cpu.rlc();
    assert_eq!((cpu.a, cpu.cc.cy), (0x80, false));
    cpu.a = 0x02;
    cpu.rrc();
    assert_eq!((cpu.a, cpu.cc.cy), (0x01, false));
}

#[test]
fn rotation_of_every_byte() {
    let mut cpu = State8080::new();
    for v in 0u16..=255 {
        let v = v as u8;
        for c in [false, true] {
            cpu.a = v;
            cpu.cc.cy = c;
            cpu.rlc();
            assert_eq!((cpu.a, cpu.cc.cy), (v.rotate_left(1), v & 0x80 != 0));
            cpu.a = v;
            cpu.cc.cy = c;
            cpu.rrc();
            assert_eq!((cpu.a, cpu.cc.cy), (v.rotate_right(1), v & 1 != 0));
            cpu.a = v;
            cpu.cc.cy = c;
            cpu.ral();
            assert_eq!((cpu.a, cpu.cc.cy), (v << 1 | c as u8, v & 0x80 != 0));
            cpu.a = v;
            cpu.cc.cy = c;
            cpu.rar();
            assert_eq!((cpu.a, cpu.cc.cy), (v >> 1 | (c as u8) << 7, v & 1 != 0));
        }
    }
}

#[test]
fn double_add() {
    let mut cpu = State8080::new();
    cpu.set_hl(0xfffe);
    cpu.cc = ConditionCodes { s: true, z: true, ac: true, p: true, cy: false };
    cpu.dad(0x0003);
    assert_eq!(cpu.get_hl(), 0x0001);
    assert_eq!(cpu.cc, ConditionCodes { s: true, z: true, ac: true, p: true, cy: true });
    cpu.dad(0x00ff);
    assert_eq!(cpu.get_hl(), 0x0100);
    assert!(!cpu.cc.cy);
}

#[test]
fn pair_counting_never_touches_the_flags() {
    let mut cpu = State8080::new();
    let flags = ConditionCodes { s: true, z: false, ac: true, p: false, cy: true };
    cpu.cc = flags;
    cpu.set_bc(0x00ff);
    cpu.inx(Pair::BC);
    assert_eq!(cpu.get_bc(), 0x0100);
    cpu.dcx(Pair::BC);
    assert_eq!(cpu.get_bc(), 0x00ff);
    cpu.set_hl(0xffff);
    cpu.inx(Pair::HL);
    assert_eq!(cpu.get_hl(), 0x0000);
    cpu.dcx(Pair::HL);
    assert_eq!(cpu.get_hl(), 0xffff);
    cpu.sp = 0;
    cpu.dcx(Pair::SP);
    assert_eq!(cpu.sp, 0xffff);
    assert_eq!(cpu.cc, flags);
}

#[test]
fn inx_and_dcx_as_instructions() {
    let mut cpu = machine(&[0x03, 0x0b, 0x0b, 0x13, 0x23, 0x33, 0x1b, 0x2b, 0x3b]);
    let flags = ConditionCodes { s: true, z: true, ac: true, p: true, cy: true };
    cpu.cc = flags;
    cpu.set_bc(0x00ff);
    run(&mut cpu, 1);
    assert_eq!(cpu.get_bc(), 0x0100);
    run(&mut cpu, 1);
    assert_eq!(cpu.get_bc(), 0x00ff);
    run(&mut cpu, 1);
    assert_eq!(cpu.get_bc(), 0x00fe);
    run(&mut cpu, 3);
    assert_eq!((cpu.get_de(), cpu.get_hl(), cpu.sp), (1, 1, 0x2401));
    run(&mut cpu, 3);
    assert_eq!((cpu.get_de(), cpu.get_hl(), cpu.sp), (0, 0, 0x2400));
    assert_eq!(cpu.cc, flags);
    assert_eq!(cpu.cycles, 45);
}

#[test]
fn push_then_pop_restores_every_pair() {
    // PUSH B; PUSH D; PUSH H; PUSH PSW; then clear and POP in reverse.
    let mut cpu = machine(&[0xc5, 0xd5, 0xe5, 0xf5, 0xf1, 0xe1, 0xd1, 0xc1]);
    cpu.set_bc(0x1234);
    cpu.set_de(0x5678);
    cpu.set_hl(0x9abc);
    cpu.a = 0xde;
    cpu.cc = ConditionCodes { s: true, z: false, ac: true, p: false, cy: true };
    run(&mut cpu, 4);
    assert_eq!(cpu.sp, 0x2400 - 8);
    assert_eq!(&cpu.memory.memory[0x23f8..0x2400], &[0x93, 0xde, 0xbc, 0x9a, 0x78, 0x56, 0x34, 0x12]);
    cpu.set_bc(0);
    cpu.set_de(0);
    cpu.set_hl(0);
    cpu.a = 0;
    cpu.cc = clear();
    run(&mut cpu, 4);
    assert_eq!(cpu.sp, 0x2400);
    assert_eq!(cpu.get_bc(), 0x1234);
    assert_eq!(cpu.get_de(), 0x5678);
    assert_eq!(cpu.get_hl(), 0x9abc);
    assert_eq!(cpu.a, 0xde);
    assert_eq!(cpu.cc, ConditionCodes { s: true, z: false, ac: true, p: false, cy: true });
    assert_eq!(cpu.cycles, 4 * 11 + 4 * 10);
}

#[test]
fn push_psw_then_pop_psw_of_every_flag_set() {
    for bits in 0u8..32 {
        let mut cpu = machine(&[0xf5, 0xf1]);
        let flags = ConditionCodes {
            s: bits & 1 != 0,
            z: bits & 2 != 0,
            ac: bits & 4 != 0,
            p: bits & 8 != 0,
            cy: bits & 16 != 0,
        };
        cpu.a = bits.wrapping_mul(37);
        cpu.cc = flags;
        let pair = cpu.get_af();
        run(&mut cpu, 1);
        assert_eq!(cpu.memory.read_word(cpu.sp), pair);
        cpu.a = 0;
        cpu.cc = clear();
        run(&mut cpu, 1);
        assert_eq!(cpu.get_af(), pair);
        assert_eq!(cpu.cc, flags);
        assert_eq!(cpu.sp, 0x2400);
    }
}

#[test]
fn push_and_pop_methods() {
    let mut cpu = State8080::new();
    cpu.sp = 0x3000;
    assert!(cpu.push(0xcafe));
    assert_eq!(cpu.sp, 0x2ffe);
    assert_eq!(cpu.memory.read(0x2ffe), 0xfe);
    assert_eq!(cpu.memory.read(0x2fff), 0xca);
    assert_eq!(cpu.pop(), 0xcafe);
    assert_eq!(cpu.sp, 0x3000);
    cpu.a = 0x55;
    cpu.cc = ConditionCodes { s: false, z: true, ac: false, p: true, cy: false };
    assert!(cpu.push_psw());
    assert_eq!(cpu.memory.read(0x2ffe), 0x46);
    cpu.a = 0;
    cpu.cc = clear();
    cpu.pop_psw();
    assert_eq!(cpu.a, 0x55);
    assert_eq!(cpu.cc, ConditionCodes { s: false, z: true, ac: false, p: true, cy: false });
}

#[test]
fn push_outside_ram_reports_failure() {
    let mut cpu = State8080::new();
    cpu.sp = 0x1000;
    assert!(!cpu.push(0x1234));
    assert_eq!(cpu.sp, 0x0ffe);
    assert!(cpu.memory.memory.iter().all(|b| *b == 0));
    cpu.sp = 0x0001;
    assert!(!cpu.push(0x1234));
    assert_eq!(cpu.sp, 0xffff);
}

#[test]
fn call_then_ret_returns_behind_the_call() {
    // 0x0000: CALL 0x0010 ; 0x0003: NOP ; 0x0010: RET
    let mut program = vec![0u8; 0x20];
    program[0] = 0xcd;
    program[1] = 0x10;
    program[2] = 0x00;
    program[0x10] = 0xc9;
    let mut cpu = machine(&program);
    run(&mut cpu, 1);
    assert_eq!(cpu.pc, 0x0010);
    assert_eq!(cpu.sp, 0x23fe);
    assert_eq!(cpu.memory.read_word(0x23fe), 0x0003);
    assert_eq!(cpu.cycles, 17);
    run(&mut cpu, 1);
    assert_eq!(cpu.pc, 0x0003);
    assert_eq!(cpu.sp, 0x2400);
    assert_eq!(cpu.cycles, 27);
}

#[test]
fn call_from_anywhere_returns_three_bytes_on() {
    for at in [0x0000usize, 0x0100, 0x1ffd, 0x0fff] {
        let mut image = vec![0u8; 0x2000];
        image[at] = 0xcd;
        image[at + 1] = 0x80;
        image[at + 2] = 0x00;
        image[0x80] = 0xc9;
        let mut cpu = State8080::new();
        assert!(cpu.load_rom(0, 0x1fff, &image));
        cpu.sp = 0x3000;
        cpu.pc = at as u16;
        run(&mut cpu, 2);
        assert_eq!(cpu.pc as usize, at + 3);
        assert_eq!(cpu.sp, 0x3000);
    }
}

#[test]
fn call_and_ret_methods() {
    let mut cpu = State8080::new();
    cpu.sp = 0x2400;
    cpu.pc = 0x0123;
    assert!(cpu.call(0x0456));
    assert_eq!(cpu.pc, 0x0456);
    assert_eq!(cpu.memory.read_word(0x23fe), 0x0123);
    cpu.ret();
    assert_eq!(cpu.pc, 0x0123);
    assert_eq!(cpu.sp, 0x2400);
    cpu.jump(0x0777);
    assert_eq!(cpu.pc, 0x0777);
    cpu.cond_ret(false);
    assert_eq!(cpu.pc, 0x0777);
    assert!(cpu.push(0x0888));
    cpu.cond_ret(true);
    assert_eq!(cpu.pc, 0x0888);
}

#[test]
fn conditional_jump_and_call_methods_read_their_target() {
    let mut cpu = machine(&[0x34, 0x12, 0x78, 0x56, 0xbc, 0x1a, 0xf0, 0x0d]);
    cpu.cond_jump(false);
    assert_eq!(cpu.pc, 2);
    assert!(cpu.cond_call(false));
    assert_eq!(cpu.pc, 4);
    assert_eq!(cpu.sp, 0x2400);
    assert!(cpu.cond_call(true));
    assert_eq!(cpu.pc, 0x1abc);
    assert_eq!(cpu.memory.read_word(0x23fe), 0x0006);
    cpu.pc = 6;
    cpu.cond_jump(true);
    assert_eq!(cpu.pc, 0x0df0);
}

#[test]
fn conditional_call_and_return_cost_less_when_not_taken() {
    // CNZ 0x0010 (Z set: not taken); RNZ (not taken); CZ 0x0010 (taken); at 0x10: RZ (taken)
    let mut program = vec![0u8; 0x20];
    program[0] = 0xc4;
    program[1] = 0x10;
    program[3] = 0xc0;
    program[4] = 0xcc;
    program[5] = 0x10;
    program[0x10] = 0xc8;
    let mut cpu = machine(&program);
    cpu.cc.z = true;
    run(&mut cpu, 1);
    assert_eq!((cpu.pc, cpu.sp, cpu.cycles), (3, 0x2400, 11));
    run(&mut cpu, 1);
    assert_eq!((cpu.pc, cpu.sp, cpu.cycles), (4, 0x2400, 16));
    run(&mut cpu, 1);
    assert_eq!((cpu.pc, cpu.sp, cpu.cycles), (0x10, 0x23fe, 33));
    run(&mut cpu, 1);
    assert_eq!((cpu.pc, cpu.sp, cpu.cycles), (7, 0x2400, 44));
}

#[test]
fn conditional_jump_costs_the_same_either_way() {
    // JNZ 0x0100 (not taken), JZ 0x0006 (taken)
    let mut cpu = machine(&[0xc2, 0x00, 0x01, 0xca, 0x06, 0x00, 0x00]);
    cpu.cc.z = true;
    run(&mut cpu, 1);
    assert_eq!((cpu.pc, cpu.cycles), (3, 10));
    run(&mut cpu, 1);
    assert_eq!((cpu.pc, cpu.cycles), (6, 20));
}

#[test]
fn every_condition_reads_its_flag() {
    let mut cpu = State8080::new();
    cpu.cc = ConditionCodes { s: true, z: false, ac: false, p: true, cy: false };
    assert!(cpu.holds(Condition::NotZero));
    assert!(!cpu.holds(Condition::Zero));
    assert!(cpu.holds(Condition::NoCarry));
    assert!(!cpu.holds(Condition::Carry));
    assert!(!cpu.holds(Condition::ParityOdd));
    assert!(cpu.holds(Condition::ParityEven));
    assert!(!cpu.holds(Condition::Plus));
    assert!(cpu.holds(Condition::Minus));
}

#[test]
fn loads_and_stores() {
    // LXI H,0x2100; MVI M,0x5a; MOV B,M; INR M; DCR B; STA 0x2200; LDA 0x2100;
    // LXI D,0x2300; STAX D; LXI B,0x2100; LDAX B; SHLD 0x2310; LXI H,0; LHLD 0x2310
    let mut cpu = machine(&[
        0x21, 0x00, 0x21, 0x36, 0x5a, 0x46, 0x34, 0x05, 0x32, 0x00, 0x22, 0x3a, 0x00, 0x21, 0x11,
        0x00, 0x23, 0x12, 0x01, 0x00, 0x21, 0x0a, 0x22, 0x10, 0x23, 0x21, 0x00, 0x00, 0x2a, 0x10,
        0x23,
    ]);
    cpu.a = 0x77;
    run(&mut cpu, 2);
    assert_eq!(cpu.memory.read(0x2100), 0x5a);
    run(&mut cpu, 1);
    assert_eq!(cpu.b, 0x5a);
    run(&mut cpu, 1);
    assert_eq!(cpu.memory.read(0x2100), 0x5b);
    run(&mut cpu, 1);
    assert_eq!(cpu.b, 0x59);
    run(&mut cpu, 1);
    assert_eq!(cpu.memory.read(0x2200), 0x77);
    run(&mut cpu, 1);
    assert_eq!(cpu.a, 0x5b);
    run(&mut cpu, 2);
    assert_eq!(cpu.memory.read(0x2300), 0x5b);
    cpu.a = 0;
    run(&mut cpu, 2);
    assert_eq!(cpu.a, 0x5b);
    run(&mut cpu, 1);
    assert_eq!(cpu.memory.read_word(0x2310), 0x2100);
    run(&mut cpu, 1);
    assert_eq!(cpu.get_hl(), 0);
    run(&mut cpu, 1);
    assert_eq!(cpu.get_hl(), 0x2100);
    assert_eq!(cpu.pc, 31);
    assert_eq!(cpu.cycles, 10 + 10 + 7 + 10 + 5 + 13 + 13 + 10 + 7 + 10 + 7 + 16 + 10 + 16);
}

#[test]
fn moves_between_all_registers() {
    // MOV B,A; MOV C,B; MOV D,C; MOV E,D; MOV H,E; MOV L,H; MOV A,L
    let mut cpu = machine(&[0x47, 0x48, 0x51, 0x5a, 0x63, 0x6c, 0x7d]);
    cpu.a = 0x99;
    run(&mut cpu, 6);
    assert_eq!((cpu.b, cpu.c, cpu.d, cpu.e, cpu.h, cpu.l), (0x99, 0x99, 0x99, 0x99, 0x99, 0x99));
    cpu.l = 0x11;
    run(&mut cpu, 1);
    assert_eq!(cpu.a, 0x11);
    assert_eq!(cpu.cycles, 35);
}

#[test]
fn operands_by_code() {
    let mut cpu = State8080::new();
    cpu.set_hl(0x2000);
    for code in [0u8, 1, 2, 3, 4, 5, 7] {
        assert!(cpu.set_reg(Register { register: code }, 0x10 + code));
    }
    assert_eq!(cpu.b, 0x10);
    assert_eq!(cpu.c, 0x11);
    assert_eq!(cpu.d, 0x12);
    assert_eq!(cpu.e, 0x13);
    assert_eq!(cpu.h, 0x14);
    assert_eq!(cpu.l, 0x15);
    assert_eq!(cpu.a, 0x17);
    assert_eq!(cpu.memory.read(0x1415), 0x00);
    cpu.set_hl(0x2000);
    assert!(cpu.set_reg(Register { register: 6 }, 0x16));
    assert_eq!(cpu.memory.read(0x2000), 0x16);
    assert_eq!(cpu.reg(Register { register: 6 }), 0x16);
    assert_eq!(cpu.reg(Register { register: 7 }), 0x17);
    assert_eq!(cpu.reg(Register { register: 0 }), 0x10);
    cpu.set_hl(0x1000);
    assert!(!cpu.set_reg(Register { register: 6 }, 0x16));
    assert_eq!(cpu.memory.read(0x1000), 0x00);
}

#[test]
fn accumulator_instructions() {
    // ADI 0xf0; ACI 0x0f; SUI 0x01; SBI 0x00; ANI 0x0f; XRI 0xff; ORI 0x01; CPI 0xf1;
    // CMA; STC; CMC; CMC
    let mut cpu = machine(&[
        0xc6, 0xf0, 0xce, 0x0f, 0xd6, 0x01, 0xde, 0x00, 0xe6, 0x0f, 0xee, 0xff, 0xf6, 0x01, 0xfe,
        0xf1, 0x2f, 0x37, 0x3f, 0x3f,
    ]);
    cpu.a = 0x20;
    run(&mut cpu, 1);
    assert_eq!((cpu.a, cpu.cc.cy), (0x10, true));
    run(&mut cpu, 1);
    assert_eq!((cpu.a, cpu.cc.cy), (0x20, false));
    run(&mut cpu, 1);
    assert_eq!((cpu.a, cpu.cc.cy), (0x1f, false));
    run(&mut cpu, 1);
    assert_eq!((cpu.a, cpu.cc.cy), (0x1f, false));
    run(&mut cpu, 1);
    assert_eq!((cpu.a, cpu.cc.cy, cpu.cc.ac), (0x0f, false, true));
    run(&mut cpu, 1);
    assert_eq!((cpu.a, cpu.cc.s), (0xf0, true));
    run(&mut cpu, 1);
    assert_eq!(cpu.a, 0xf1);
    run(&mut cpu, 1);
    assert_eq!((cpu.a, cpu.cc.z, cpu.cc.cy), (0xf1, true, false));
    run(&mut cpu, 1);
    assert_eq!((cpu.a, cpu.cc.z), (0x0e, true));
    run(&mut cpu, 1);
    assert!(cpu.cc.cy);
    run(&mut cpu, 1);
    assert!(!cpu.cc.cy);
    run(&mut cpu, 1);
    assert!(cpu.cc.cy);
    assert_eq!(cpu.cycles, 8 * 7 + 4 * 4);
}

#[test]
fn accumulator_with_register_and_memory_operands() {
    // ADD B; ADC C; SUB D; SBB E; ANA H; XRA L; ORA M; CMP A
    let mut cpu = machine(&[0x80, 0x89, 0x92, 0x9b, 0xa4, 0xad, 0xb6, 0xbf]);
    cpu.a = 0xff;
    cpu.b = 0x01;
    cpu.c = 0x01;
    cpu.d = 0x03;
    cpu.e = 0x00;
    cpu.h = 0x20;
    cpu.l = 0x10;
    cpu.memory.memory[0x2010] = 0x0f;
    run(&mut cpu, 1);
    assert_eq!((cpu.a, cpu.cc.cy), (0x00, true));
    run(&mut cpu, 1);
    assert_eq!((cpu.a, cpu.cc.cy), (0x02, false));
    run(&mut cpu, 1);
    assert_eq!((cpu.a, cpu.cc.cy), (0xff, true));
    run(&mut cpu, 1);
    assert_eq!((cpu.a, cpu.cc.cy), (0xfe, false));
    run(&mut cpu, 1);
    assert_eq!(cpu.a, 0x20);
    run(&mut cpu, 1);
    assert_eq!(cpu.a, 0x30);
    run(&mut cpu, 1);
    assert_eq!(cpu.a, 0x3f);
    run(&mut cpu, 1);
    assert_eq!((cpu.a, cpu.cc.z, cpu.cc.cy), (0x3f, true, false));
    assert_eq!(cpu.cycles, 4 * 7 + 7);
}

#[test]
fn exchanges_and_pointer_moves() {
    // XCHG; SPHL; XTHL; PCHL
    let mut cpu = machine(&[0xeb, 0xf9, 0xe3, 0xe9]);
    cpu.set_hl(0x1111);
    cpu.set_de(0x2222);
    run(&mut cpu, 1);
    assert_eq!((cpu.get_hl(), cpu.get_de()), (0x2222, 0x1111));
    run(&mut cpu, 1);
    assert_eq!(cpu.sp, 0x2222);
    cpu.memory.memory[0x2222] = 0x08;
    cpu.memory.memory[0x2223] = 0x00;
    run(&mut cpu, 1);
    assert_eq!(cpu.get_hl(), 0x0008);
    assert_eq!(cpu.memory.read_word(0x2222), 0x2222);
    assert_eq!(cpu.sp, 0x2222);
    run(&mut cpu, 1);
    assert_eq!(cpu.pc, 0x0008);
    assert_eq!(cpu.cycles, 5 + 5 + 18 + 5);
}

#[test]
fn exchange_methods() {
    let mut cpu = State8080::new();
    cpu.set_hl(0xaaaa);
    cpu.set_de(0x5555);
    cpu.xchg();
    assert_eq!((cpu.get_hl(), cpu.get_de()), (0x5555, 0xaaaa));
    cpu.sp = 0x2800;
    cpu.memory.memory[0x2800] = 0x34;
    cpu.memory.memory[0x2801] = 0x12;
    assert!(cpu.xthl());
    assert_eq!(cpu.get_hl(), 0x1234);
    assert_eq!(cpu.memory.read_word(0x2800), 0x5555);
    cpu.sp = 0x0100;
    assert!(!cpu.xthl());
    assert_eq!(cpu.get_hl(), 0x0000);
    assert_eq!(cpu.memory.read_word(0x0100), 0x0000);
}

#[test]
fn interrupt_switch() {
    // EI; DI; NOP
    let mut cpu = machine(&[0xfb, 0xf3, 0x00]);
    run(&mut cpu, 1);
    assert!(cpu.int_enable);
    run(&mut cpu, 1);
    assert!(!cpu.int_enable);
    run(&mut cpu, 1);
    assert_eq!((cpu.pc, cpu.cycles), (3, 12));
    cpu.nop();
    assert_eq!((cpu.pc, cpu.cycles), (3, 12));
}

#[test]
fn ports_through_the_engine() {
    // MVI A,0xaa; OUT 4; MVI A,0xff; OUT 4; MVI A,4; OUT 2; IN 3; IN 1; OUT 6
    let mut cpu = machine(&[
        0x3e, 0xaa, 0xd3, 0x04, 0x3e, 0xff, 0xd3, 0x04, 0x3e, 0x04, 0xd3, 0x02, 0xdb, 0x03, 0xdb,
        0x01, 0xd3, 0x06,
    ]);
    run(&mut cpu, 7);
    assert_eq!(cpu.a, 0xfa);
    assert_eq!((cpu.special.shift0, cpu.special.shift1, cpu.special.shift_offset), (0xaa, 0xff, 4));
    run(&mut cpu, 2);
    assert_eq!(cpu.a, 0x00);
    assert_eq!(cpu.cycles, 3 * 7 + 6 * 10);
}

#[test]
fn ports_that_no_device_serves_are_reported() {
    // MVI A,0x12; OUT 9; IN 7
    let mut cpu = machine(&[0x3e, 0x12, 0xd3, 0x09, 0xdb, 0x07]);
    assert_eq!(cpu.step(), Ok(Event::Executed));
    assert_eq!(cpu.step(), Ok(Event::OutputIgnored { port: 9, value: 0x12 }));
    assert_eq!(cpu.step(), Ok(Event::InputIgnored { port: 7 }));
    assert_eq!(cpu.a, 0);
    assert_eq!((cpu.pc, cpu.cycles), (6, 27));
}

#[test]
fn unknown_opcode_halts_and_changes_nothing() {
    for opcode in [0x08u8, 0x10, 0x27, 0x76, 0xc7, 0xcb, 0xd9, 0xdd, 0xed, 0xfd, 0xff] {
        let mut cpu = machine(&[0x00, opcode]);
        run(&mut cpu, 1);
        assert_eq!(cpu.step(), Err(Fault::UnknownOpcode { opcode, pc: 1 }));
        assert_eq!((cpu.pc, cpu.cycles, cpu.sp), (1, 4, 0x2400));
        cpu.pc = 2;
        assert_eq!(cpu.do_instruction(opcode), Err(Fault::UnknownOpcode { opcode, pc: 1 }));
        assert_eq!((cpu.pc, cpu.cycles, cpu.sp), (2, 4, 0x2400));
        cpu.pc = 0;
        assert_eq!(cpu.do_instruction(opcode), Err(Fault::UnknownOpcode { opcode, pc: 0xffff }));
    }
}

#[test]
fn write_to_rom_halts_and_changes_nothing() {
    // LXI H,0x1000; MVI M,0x55
    let mut cpu = machine(&[0x21, 0x00, 0x10, 0x36, 0x55]);
    run(&mut cpu, 1);
    assert_eq!(cpu.step(), Err(Fault::WriteProtected { address: 0x1000, value: 0x55 }));
    assert_eq!((cpu.pc, cpu.cycles), (3, 10));
    assert_eq!(cpu.memory.read(0x1000), 0);
}

#[test]
fn increment_in_rom_reports_the_value_it_tried() {
    // INR M with HL = 0x0000 (the opcode itself, 0x34)
    let mut cpu = machine(&[0x34]);
    let flags = ConditionCodes { s: true, z: true, ac: false, p: false, cy: true };
    cpu.cc = flags;
    assert_eq!(cpu.step(), Err(Fault::WriteProtected { address: 0, value: 0x35 }));
    assert_eq!(cpu.cc, flags);
    assert_eq!((cpu.pc, cpu.cycles), (0, 0));
}

#[test]
fn stack_in_rom_halts_push_and_call() {
    let mut cpu = machine(&[0xc5]);
    cpu.sp = 0x2000;
    cpu.set_bc(0xabcd);
    assert_eq!(cpu.step(), Err(Fault::WriteProtected { address: 0x1ffe, value: 0xcd }));
    assert_eq!((cpu.sp, cpu.pc), (0x2000, 0));
    cpu.sp = 0x2001;
    assert_eq!(cpu.step(), Err(Fault::WriteProtected { address: 0x1fff, value: 0xcd }));
    assert_eq!(cpu.memory.read(0x2000), 0);
    cpu.sp = 0x4001;
    assert_eq!(cpu.step(), Err(Fault::WriteProtected { address: 0x4000, value: 0xab }));
    assert_eq!(cpu.memory.read(0x3fff), 0);
    cpu.sp = 0x0000;
    assert_eq!(cpu.step(), Err(Fault::WriteProtected { address: 0xfffe, value: 0xcd }));
    let mut cpu = machine(&[0xcd, 0x00, 0x01]);
    cpu.sp = 0x1000;
    assert_eq!(cpu.step(), Err(Fault::WriteProtected { address: 0x0ffe, value: 0x03 }));
    assert_eq!((cpu.sp, cpu.pc, cpu.cycles), (0x1000, 0, 0));
}

#[test]
fn read_beyond_the_address_space_halts() {
    // LXI B,0x4000; LDAX B
    let mut cpu = machine(&[0x01, 0x00, 0x40, 0x0a]);
    run(&mut cpu, 1);
    assert_eq!(cpu.step(), Err(Fault::ReadOutOfRange { address: 0x4000 }));
    assert_eq!((cpu.pc, cpu.cycles), (3, 10));
    // POP B with the stack pointer on the last byte
    let mut cpu = machine(&[0xc1]);
    cpu.sp = 0x3fff;
    assert_eq!(cpu.step(), Err(Fault::ReadOutOfRange { address: 0x4000 }));
    cpu.sp = 0x8000;
    assert_eq!(cpu.step(), Err(Fault::ReadOutOfRange { address: 0x8000 }));
    assert_eq!((cpu.pc, cpu.sp), (0, 0x8000));
    // LDA 0xffff and LHLD 0x3fff
    let mut cpu = machine(&[0x3a, 0xff, 0xff, 0x2a, 0xff, 0x3f]);
    assert_eq!(cpu.step(), Err(Fault::ReadOutOfRange { address: 0xffff }));
    cpu.pc = 3;
    assert_eq!(cpu.step(), Err(Fault::ReadOutOfRange { address: 0x4000 }));
}

#[test]
fn program_counter_beyond_the_address_space_halts() {
    let mut cpu = State8080::new();
    cpu.pc = 0x4000;
    assert_eq!(cpu.step(), Err(Fault::ReadOutOfRange { address: 0x4000 }));
    assert_eq!((cpu.pc, cpu.cycles), (0x4000, 0));
    cpu.pc = 0xffff;
    assert_eq!(cpu.step(), Err(Fault::ReadOutOfRange { address: 0xffff }));
    assert_eq!(cpu.pc, 0xffff);
}

#[test]
fn operand_beyond_the_address_space_halts_do_instruction() {
    let mut cpu = State8080::new();
    cpu.pc = 0x4000;
    assert_eq!(cpu.do_instruction(0x3e), Err(Fault::ReadOutOfRange { address: 0x4000 }));
    assert_eq!(cpu.do_instruction(0xc3), Err(Fault::ReadOutOfRange { address: 0x4000 }));
    cpu.pc = 0x3fff;
    assert_eq!(cpu.do_instruction(0xc3), Err(Fault::ReadOutOfRange { address: 0x4000 }));
    assert_eq!(cpu.pc, 0x3fff);
    assert_eq!(cpu.do_instruction(0x3e), Ok(Event::Executed));
    assert_eq!(cpu.pc, 0x4000);
    cpu.pc = 0xffff;
    assert_eq!(cpu.do_instruction(0x3e), Err(Fault::ReadOutOfRange { address: 0xffff }));
    assert_eq!(cpu.do_instruction(0x21), Err(Fault::ReadOutOfRange { address: 0xffff }));
    assert_eq!((cpu.pc, cpu.a, cpu.cycles), (0xffff, 0, 0));
}

#[test]
fn instruction_without_operand_reads_nothing_at_the_program_counter() {
    for pc in [0x0000u16, 0x3fff, 0x4000, 0x8000, 0xffff] {
        let mut cpu = State8080::new();
        cpu.pc = pc;
        cpu.a = 0x0f;
        assert_eq!(cpu.do_instruction(0x00), Ok(Event::Executed));
        assert_eq!(cpu.do_instruction(0x3c), Ok(Event::Executed));
        assert_eq!(cpu.do_instruction(0x47), Ok(Event::Executed));
        assert_eq!(cpu.do_instruction(0x80), Ok(Event::Executed));
        assert_eq!((cpu.a, cpu.b, cpu.pc, cpu.cycles), (0x20, 0x10, pc, 0));
    }
}

#[test]
fn instruction_cut_off_by_the_end_of_memory_halts() {
    let mut cpu = State8080::new();
    cpu.pc = 0x3fff;
    assert!(cpu.memory.write(0x3fff, 0x3e));
    assert_eq!(cpu.step(), Err(Fault::ReadOutOfRange { address: 0x4000 }));
    cpu.pc = 0x3ffe;
    assert!(cpu.memory.write(0x3ffe, 0xc3));
    assert_eq!(cpu.step(), Err(Fault::ReadOutOfRange { address: 0x4000 }));
    assert!(cpu.memory.write(0x3ffe, 0x3e));
    assert!(cpu.memory.write(0x3fff, 0x42));
    assert_eq!(cpu.step(), Ok(Event::Executed));
    assert_eq!((cpu.a, cpu.pc), (0x42, 0x4000));
}

#[test]
fn fault_check_agrees_with_the_step() {
    let mut cpu = machine(&[0x77]);
    cpu.set_hl(0x1234);
    cpu.a = 9;
    let i = decode(0x77).unwrap();
    assert_eq!(i, Instruction::Mov(Register { register: 6 }, Register { register: 7 }));
    assert_eq!(cpu.fault_of(i), Some(Fault::WriteProtected { address: 0x1234, value: 9 }));
    cpu.set_hl(0x2234);
    assert_eq!(cpu.fault_of(i), None);
    assert_eq!(cpu.step(), Ok(Event::Executed));
    assert_eq!(cpu.memory.read(0x2234), 9);
}

#[test]
fn do_instruction_reads_its_operand_at_the_program_counter() {
    let mut cpu = machine(&[0x00, 0x42]);
    cpu.pc = 1;
    assert_eq!(cpu.do_instruction(0x3e), Ok(Event::Executed));
    assert_eq!((cpu.a, cpu.pc, cpu.cycles), (0x42, 2, 0));
}

#[test]
fn fetch_then_do_instruction_runs_the_program() {
    // MVI A,0x05; MVI B,0x03
    let mut cpu = machine(&[0x3e, 0x05, 0x06, 0x03]);
    let opcode = cpu.read_next();
    assert_eq!(opcode, 0x3e);
    assert_eq!(cpu.do_instruction(opcode), Ok(Event::Executed));
    assert_eq!((cpu.a, cpu.pc), (0x05, 2));
    let opcode = cpu.read_next();
    assert_eq!(cpu.do_instruction(opcode), Ok(Event::Executed));
    assert_eq!((cpu.a, cpu.b, cpu.pc, cpu.cycles), (0x05, 0x03, 4, 0));
}

#[test]
fn do_instruction_of_inx_changes_the_pair_only() {
    let mut cpu = State8080::new();
    cpu.b = 0x00;
    cpu.c = 0xff;
    cpu.cc = ConditionCodes { s: true, z: true, ac: true, p: true, cy: true };
    assert_eq!(cpu.do_instruction(0x03), Ok(Event::Executed));
    assert_eq!((cpu.b, cpu.c), (0x01, 0x00));
    assert_eq!(cpu.cc, ConditionCodes { s: true, z: true, ac: true, p: true, cy: true });
    assert_eq!((cpu.a, cpu.d, cpu.e, cpu.h, cpu.l, cpu.sp, cpu.pc), (0, 0, 0, 0, 0, 0, 0));
    assert_eq!(cpu.cycles, 0);
    assert!(cpu.memory.memory.iter().all(|b| *b == 0));
}

#[test]
fn do_instruction_of_pair_counting_anywhere() {
    for pc in [0x0000u16, 0x1234, 0x4000, 0xffff] {
        for pair in [0x0000u16, 0x00ff, 0x0100, 0xffff, 0x1234] {
            let mut cpu = State8080::new();
            cpu.pc = pc;
            cpu.cycles = 123;
            cpu.cc = ConditionCodes { s: false, z: true, ac: false, p: true, cy: true };
            cpu.set_bc(pair);
            cpu.set_de(pair);
            cpu.set_hl(pair);
            assert_eq!(cpu.do_instruction(0x03), Ok(Event::Executed));
            assert_eq!(cpu.do_instruction(0x13), Ok(Event::Executed));
            assert_eq!(cpu.do_instruction(0x23), Ok(Event::Executed));
            assert_eq!(cpu.get_bc(), pair.wrapping_add(1));
            assert_eq!(cpu.get_de(), pair.wrapping_add(1));
            assert_eq!(cpu.get_hl(), pair.wrapping_add(1));
            assert_eq!(cpu.do_instruction(0x2b), Ok(Event::Executed));
            assert_eq!(cpu.do_instruction(0x2b), Ok(Event::Executed));
            assert_eq!(cpu.get_hl(), pair.wrapping_sub(1));
            assert_eq!(cpu.cc, ConditionCodes { s: false, z: true, ac: false, p: true, cy: true });
            assert_eq!((cpu.a, cpu.sp, cpu.pc, cpu.cycles), (0, 0, pc, 123));
        }
    }
}

#[test]
fn do_instruction_of_call_pushes_the_address_behind_the_target() {
    let mut cpu = State8080::new();
    assert!(cpu.load_rom(0, 2, &[0xcd, 0x34, 0x12]));
    cpu.sp = 0x2400;
    cpu.pc = 0x0001;
    assert_eq!(cpu.do_instruction(0xcd), Ok(Event::Executed));
    assert_eq!((cpu.pc, cpu.sp), (0x1234, 0x23fe));
    assert_eq!(cpu.memory.memory[0x23fe], 0x03);
    assert_eq!(cpu.memory.memory[0x23ff], 0x00);
    assert_eq!(cpu.cycles, 0);
}

#[test]
fn do_instruction_of_shld_stores_at_its_operand() {
    let mut cpu = State8080::new();
    assert!(cpu.load_rom(1, 2, &[0x00, 0x21]));
    cpu.h = 0xab;
    cpu.l = 0xcd;
    cpu.pc = 0x0001;
    assert_eq!(cpu.do_instruction(0x22), Ok(Event::Executed));
    assert_eq!(cpu.memory.memory[0x2100], 0xcd);
    assert_eq!(cpu.memory.memory[0x2101], 0xab);
    assert_eq!((cpu.pc, cpu.h, cpu.l), (0x0003, 0xab, 0xcd));
    assert_eq!(cpu.cc, clear());
}

#[test]
fn takes_reads_the_condition_of_the_opcode() {
    let mut cpu = State8080::new();
    cpu.cc.z = true;
    assert!(!cpu.takes(0xc0));
    assert!(cpu.takes(0xc8));
    assert!(!cpu.takes(0xc2));
    assert!(cpu.takes(0xcc));
    assert!(cpu.takes(0xd0));
    assert!(!cpu.takes(0xdc));
    assert!(cpu.takes(0x00));
    assert!(cpu.takes(0xcd));
    assert!(cpu.takes(0x76));
}

#[test]
fn decode_knows_the_instruction_set() {
    assert_eq!(decode(0x00), Some(Instruction::Nop));
    assert_eq!(decode(0x31), Some(Instruction::Lxi(Pair::SP)));
    assert_eq!(decode(0x1a), Some(Instruction::Ldax(Pair::DE)));
    assert_eq!(decode(0x17), Some(Instruction::Ral));
    assert_eq!(decode(0x35), Some(Instruction::Dcr(Register { register: 6 })));
    assert_eq!(
        decode(0x41),
        Some(Instruction::Mov(Register { register: 0 }, Register { register: 1 }))
    );
    assert_eq!(decode(0x9e), Some(Instruction::Alu(AluOp::SubBorrow, Register { register: 6 })));
    assert_eq!(decode(0xfe), Some(Instruction::AluImmediate(AluOp::Compare)));
    assert_eq!(decode(0xfa), Some(Instruction::JmpIf(Condition::Minus)));
    assert_eq!(decode(0xe4), Some(Instruction::CallIf(Condition::ParityOdd)));
    assert_eq!(decode(0xf5), Some(Instruction::Push(StackPair::PSW)));
    assert_eq!(decode(0xf3), Some(Instruction::Di));
    assert_eq!(decode(0x76), None);
    assert_eq!(decode(0x27), None);
    let known = (0u16..=255).filter(|op| decode(*op as u8).is_some()).count();
    assert_eq!(known, 256 - 7 - 1 - 1 - 8 - 5);
}

#[test]
fn size_and_cycle_tables() {
    assert_eq!(size(0x00), 1);
    assert_eq!(size(0x3e), 2);
    assert_eq!(size(0xcd), 3);
    assert_eq!(size(0xc3), 3);
    assert_eq!(size(0xdb), 2);
    assert_eq!(cycles(0x00, true), 4);
    assert_eq!(cycles(0xcd, true), 17);
    assert_eq!(cycles(0xcd, false), 17);
    assert_eq!(cycles(0xc4, true), 17);
    assert_eq!(cycles(0xc4, false), 11);
    assert_eq!(cycles(0xc0, true), 11);
    assert_eq!(cycles(0xc0, false), 5);
    assert_eq!(cycles(0xc2, false), 10);
    assert_eq!(cycles(0xe3, true), 18);
    assert_eq!(cycles(0xc9, false), 10);
    let most = (0u16..=255).map(|op| cycles(op as u8, true)).max();
    assert_eq!(most, Some(18));
    let least = (0u16..=255).map(|op| cycles(op as u8, false)).min();
    assert_eq!(least, Some(4));
}
