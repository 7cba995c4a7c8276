//! Tests for the individual instruction implementations: ALU flags, register
//! transfers, and control flow.
use rory::cpu::jump::Condition;
use rory::cpu::memory::Operation;
use rory::cpu::types::{FaultKind, GameState};

fn fresh() -> GameState {
    GameState::initialize(0x0100, 0xfff3)
}

#[test]
fn add_wraps_and_sets_carry() {
    let mut s = fresh();
    s.regs.a = 200;
    s.regs.b = 100;
    s.add_reg(0);
    assert_eq!(s.regs.a, 44);
    assert!(!s.flags.zero);
    assert!(!s.flags.subtract);
    assert!(s.flags.carry);
    assert_eq!(s.ticks, 4);
    assert_eq!(s.pc, 0x0101);
}

#[test]
fn add_zero_iff_sum_is_zero_mod_256() {
    let mut s = fresh();
    s.regs.a = 0x80;
    s.regs.c = 0x80;
    s.add_reg(1);
    assert_eq!(s.regs.a, 0);
    assert!(s.flags.zero);
    assert!(s.flags.carry);
    let mut s2 = fresh();
    s2.regs.a = 0;
    s2.regs.c = 0;
    s2.add_reg(1);
    assert!(s2.flags.zero);
    assert!(!s2.flags.carry);
}

#[test]
fn add_half_carry_from_low_nibbles() {
    let mut s = fresh();
    s.regs.a = 0x08;
    s.regs.d = 0x09;
    s.add_reg(2);
    assert_eq!(s.regs.a, 0x11);
    assert!(s.flags.half_carry);
    assert!(!s.flags.carry);
    let mut s2 = fresh();
    s2.regs.a = 0x08;
    s2.regs.d = 0x07;
    s2.add_reg(2);
    assert!(!s2.flags.half_carry);
}

#[test]
fn add_through_hl_costs_eight_ticks() {
    let mut s = fresh();
    s.set_hl(0x9000);
    s.write_mem(0x9000, 5).unwrap();
    s.regs.a = 3;
    s.add_reg(6);
    assert_eq!(s.regs.a, 8);
    assert_eq!(s.ticks, 8);
    assert_eq!(s.pc, 0x0101);
}

#[test]
fn and_scenario_sets_only_half_carry() {
    // Starting A=0x0F, AND B with B=0x0F.
    let mut s = fresh();
    s.regs.a = 0x0f;
    s.regs.b = 0x0f;
    s.and_reg(0);
    assert_eq!(s.regs.a, 0x0f);
    assert!(!s.flags.zero);
    assert!(!s.flags.subtract);
    assert!(s.flags.half_carry);
    assert!(!s.flags.carry);
}

#[test]
fn bit_ops_clear_carry_and_subtract() {
    let mut s = fresh();
    s.flags.carry = true;
    s.flags.subtract = true;
    s.regs.a = 0xf0;
    s.regs.e = 0x0f;
    s.or_reg(3);
    assert_eq!(s.regs.a, 0xff);
    assert!(!s.flags.carry && !s.flags.subtract && !s.flags.half_carry && !s.flags.zero);

    let mut s2 = fresh();
    s2.flags.carry = true;
    s2.regs.a = 0x5a;
    s2.xor_reg(7);  // XOR A,A
    assert_eq!(s2.regs.a, 0);
    assert!(s2.flags.zero);
    assert!(!s2.flags.carry && !s2.flags.subtract && !s2.flags.half_carry);

    let mut s3 = fresh();
    s3.flags.carry = true;
    s3.regs.a = 0xf0;
    s3.regs.h = 0x0f;
    s3.and_reg(4);
    assert_eq!(s3.regs.a, 0);
    assert!(s3.flags.zero);
    assert!(s3.flags.half_carry);
    assert!(!s3.flags.carry && !s3.flags.subtract);
}

#[test]
fn dec_wraps_and_keeps_carry() {
    let mut s = fresh();
    s.flags.carry = true;
    s.regs.b = 0;
    assert_eq!(s.dec_reg(0x05), Ok(()));
    assert_eq!(s.regs.b, 0xff);
    assert!(!s.flags.zero);
    assert!(s.flags.subtract);
    assert!(s.flags.half_carry);  // new != 0x0f
    assert!(s.flags.carry);  // untouched
    assert_eq!(s.ticks, 4);
    assert_eq!(s.pc, 0x0101);
}

#[test]
fn dec_to_zero_and_to_0x0f() {
    let mut s = fresh();
    s.regs.a = 1;
    assert_eq!(s.dec_reg(0x3d), Ok(()));
    assert_eq!(s.regs.a, 0);
    assert!(s.flags.zero);
    let mut s2 = fresh();
    s2.regs.h = 0x10;
    assert_eq!(s2.dec_reg(0x25), Ok(()));
    assert_eq!(s2.regs.h, 0x0f);
    assert!(!s2.flags.half_carry);  // this core: H is clear exactly when new == 0x0f
}

#[test]
fn dec_of_hl_indirect_is_a_fault() {
    let mut s = fresh();
    assert_eq!(s.dec_reg(0x35), Err(FaultKind::InvalidRegisterAccess));
    assert_eq!(s.pc, 0x0100);
    assert_eq!(s.ticks, 0);
}

#[test]
fn ld_register_to_register() {
    let mut s = fresh();
    s.regs.b = 0x42;
    assert_eq!(s.load_reg(0x78), Ok(()));  // LD A,B
    assert_eq!(s.regs.a, 0x42);
    assert_eq!(s.ticks, 4);
    assert_eq!(s.pc, 0x0101);
}

#[test]
fn ld_reads_through_hl() {
    let mut s = fresh();
    s.set_hl(0x9000);
    s.write_mem(0x9000, 0x99).unwrap();
    assert_eq!(s.load_reg(0x7e), Ok(()));  // LD A,(HL)
    assert_eq!(s.regs.a, 0x99);
    assert_eq!(s.ticks, 8);
}

#[test]
fn ld_writes_through_hl() {
    let mut s = fresh();
    s.set_hl(0x9000);
    s.regs.b = 0x77;
    assert_eq!(s.load_reg(0x70), Ok(()));  // LD (HL),B
    assert_eq!(s.read_mem(0x9000), 0x77);
    assert_eq!(s.ticks, 8);
}

#[test]
fn ld_write_through_hl_into_rom_faults() {
    let mut s = fresh();
    s.set_hl(0x2000);
    s.regs.b = 0x77;
    assert_eq!(s.load_reg(0x70), Err(FaultKind::ReadOnlyViolation));
    assert_eq!(s.pc, 0x0100);
    assert_eq!(s.ticks, 0);
}

#[test]
fn ld_immediate_byte() {
    let mut s = fresh();
    assert_eq!(s.load_word_imm(0x06, 0x55), Ok(()));  // LD B,imm8
    assert_eq!(s.regs.b, 0x55);
    assert_eq!(s.ticks, 8);
    assert_eq!(s.pc, 0x0102);
}

#[test]
fn ld_immediate_byte_to_hl_indirect_is_a_fault() {
    let mut s = fresh();
    assert_eq!(s.load_word_imm(0x36, 0x55), Err(FaultKind::InvalidRegisterAccess));
    assert_eq!(s.pc, 0x0100);
}

#[test]
fn ld_immediate_pairs_and_sp() {
    let mut s = fresh();
    s.load_dword_imm(0x01, 0x34, 0x12);  // LD BC,0x1234
    assert_eq!(s.regs.b, 0x12);
    assert_eq!(s.regs.c, 0x34);
    assert_eq!(s.ticks, 12);
    assert_eq!(s.pc, 0x0103);
    s.load_dword_imm(0x21, 0xcd, 0xab);  // LD HL,0xabcd
    assert_eq!(s.get_hl(), 0xabcd);
    s.load_dword_imm(0x31, 0x00, 0xc0);  // LD SP,0xc000
    assert_eq!(s.sp, 0xc000);
}

#[test]
fn store_and_update_steps_hl() {
    let mut s = fresh();
    s.set_hl(0x9000);
    s.regs.a = 0x66;
    assert_eq!(s.store_and_update(Operation::Increment), Ok(()));
    assert_eq!(s.read_mem(0x9000), 0x66);
    assert_eq!(s.get_hl(), 0x9001);
    assert_eq!(s.ticks, 8);
    assert_eq!(s.pc, 0x0101);
    assert_eq!(s.store_and_update(Operation::Decrement), Ok(()));
    assert_eq!(s.read_mem(0x9001), 0x66);
    assert_eq!(s.get_hl(), 0x9000);
}

#[test]
fn load_and_update_steps_hl() {
    let mut s = fresh();
    s.write_mem(0x9000, 0x31).unwrap();
    s.set_hl(0x9000);
    s.load_and_update(Operation::Increment);
    assert_eq!(s.regs.a, 0x31);
    assert_eq!(s.get_hl(), 0x9001);
    s.load_and_update(Operation::Decrement);
    assert_eq!(s.regs.a, 0);
    assert_eq!(s.get_hl(), 0x9000);
}

#[test]
fn store_at_immediate_address() {
    let mut s = fresh();
    s.regs.a = 0x12;
    assert_eq!(s.store_imm_addr(0x00, 0x90), Ok(()));
    assert_eq!(s.read_mem(0x9000), 0x12);
    assert_eq!(s.ticks, 16);
    assert_eq!(s.pc, 0x0103);
    assert_eq!(s.store_imm_addr(0x00, 0x10), Err(FaultKind::ReadOnlyViolation));
}

#[test]
fn high_page_store_and_load() {
    let mut s = fresh();
    s.regs.a = 0x3c;
    s.store_a_mem(0x05);
    assert_eq!(s.read_mem(0xff05), 0x3c);
    assert_eq!(s.ticks, 12);
    assert_eq!(s.pc, 0x0102);
    let mut s2 = fresh();
    s2.write_mem(0xff44, 0x90).unwrap();
    s2.load_a_mem(0x44);
    assert_eq!(s2.regs.a, 0x90);
    assert_eq!(s2.ticks, 12);
    assert_eq!(s2.pc, 0x0102);
}

#[test]
fn high_page_indirect_c_advances_pc_by_two() {
    // This core's quirk: the 1-byte (C)-indirect forms advance pc by 2.
    let mut s = fresh();
    s.regs.c = 0x07;
    s.regs.a = 0x99;
    s.store_a_indirect_c();
    assert_eq!(s.read_mem(0xff07), 0x99);
    assert_eq!(s.ticks, 8);
    assert_eq!(s.pc, 0x0102);
    let mut s2 = fresh();
    s2.regs.c = 0x07;
    s2.write_mem(0xff07, 0x15).unwrap();
    s2.load_a_indirect_c();
    assert_eq!(s2.regs.a, 0x15);
    assert_eq!(s2.pc, 0x0102);
}

#[test]
fn unconditional_jump() {
    let mut s = fresh();
    s.jump_uncond_imm(0x50, 0x01);
    assert_eq!(s.pc, 0x0150);
    assert_eq!(s.ticks, 16);
}

#[test]
fn call_pushes_return_address() {
    let mut s = GameState::initialize(0x0100, 0xfffe);
    assert_eq!(s.call_uncond_imm(0x00, 0x02), Ok(()));
    assert_eq!(s.pc, 0x0200);
    assert_eq!(s.sp, 0xfffc);
    assert_eq!(s.ticks, 24);
    assert_eq!(s.pop(), 0x0103);
}

#[test]
fn call_with_stack_in_rom_faults() {
    let mut s = GameState::initialize(0x0100, 0x0110);
    assert_eq!(s.call_uncond_imm(0x00, 0x02), Err(FaultKind::ReadOnlyViolation));
    assert_eq!(s.pc, 0x0100);
    assert_eq!(s.sp, 0x0110);
}

#[test]
fn conditional_relative_jump_taken_and_not() {
    let mut s = fresh();
    s.flags.zero = false;
    s.jump_cond_imm(0x10, Condition::NotZero);
    assert_eq!(s.pc, 0x0100 + 0x10 + 2);
    assert_eq!(s.ticks, 12);

    let mut s2 = fresh();
    s2.flags.zero = true;
    s2.jump_cond_imm(0x10, Condition::NotZero);
    assert_eq!(s2.pc, 0x0102);
    assert_eq!(s2.ticks, 8);
}

#[test]
fn conditional_relative_jump_negative_offset() {
    let mut s = fresh();
    s.flags.carry = false;
    s.jump_cond_imm(0xfe, Condition::NoCarry);  // offset -2: jump to itself
    assert_eq!(s.pc, 0x0100);
    assert_eq!(s.ticks, 12);
    let mut s2 = fresh();
    s2.flags.zero = true;
    s2.jump_cond_imm(0x80, Condition::Zero);  // offset -128
    assert_eq!(s2.pc, 0x0100 - 128 + 2);
}

#[test]
fn conditional_return_taken_and_not() {
    let mut s = GameState::initialize(0x0100, 0xfffe);
    s.push(0x0456).unwrap();
    s.flags.carry = false;
    s.ret_cond(Condition::NoCarry);
    assert_eq!(s.pc, 0x0456);
    assert_eq!(s.sp, 0xfffe);
    assert_eq!(s.ticks, 20);

    let mut s2 = fresh();
    s2.flags.carry = true;
    s2.ret_cond(Condition::NoCarry);
    assert_eq!(s2.pc, 0x0101);
    assert_eq!(s2.ticks, 8);
}
