//! Tests for processor state: memory regions, the I/O window, the stack, and
//! register access.
use rory::cpu::types::{FaultKind, GameState, Register, reg_to_str};

#[test]
fn initialize_defaults() {
    let s = GameState::initialize(0x0100, 0xfff3);
    assert_eq!(s.pc, 0x0100);
    assert_eq!(s.sp, 0xfff3);
    assert_eq!(s.ticks, 0);
    assert!(!s.flags.zero && !s.flags.subtract && !s.flags.half_carry && !s.flags.carry);
    assert_eq!(s.regs.a, 0);
    assert_eq!(s.regs.b, 0);
    assert_eq!(s.regs.l, 0);
    assert_eq!(s.read_mem(0x0000), 0);
    assert_eq!(s.read_mem(0x1234), 0);
    assert_eq!(s.read_mem(0xff00), 0);
    assert_eq!(s.read_mem(0xffff), 0);
}

#[test]
fn load_image_copies_program_bytes() {
    let mut s = GameState::initialize(0x0100, 0xfff3);
    let mut rom = vec![0u8; 0x200];
    rom[0x000] = 0x11;
    rom[0x100] = 0x22;
    rom[0x1ff] = 0x33;
    s.load_image(&rom);
    assert_eq!(s.read_mem(0x0000), 0x11);
    assert_eq!(s.read_mem(0x0100), 0x22);
    assert_eq!(s.read_mem(0x01ff), 0x33);
    assert_eq!(s.read_mem(0x0200), 0);
}

#[test]
fn load_image_ignores_bytes_past_the_address_space() {
    let mut s = GameState::initialize(0x0100, 0xfff3);
    let rom = vec![0x44u8; 0x10001];
    s.load_image(&rom);
    assert_eq!(s.memory[0xffff], 0x44);
    // The I/O window still reads from its own backing store, not the image.
    assert_eq!(s.read_mem(0xff40), 0);
}

#[test]
fn rom_region_writes_fail_and_change_nothing() {
    // A write anywhere in [0x0100, 0x7fff] fails with ReadOnlyViolation and
    // leaves memory as it was.
    let mut s = GameState::initialize(0x0100, 0xfff3);
    for addr in [0x0100u16, 0x0101, 0x2000, 0x3fff, 0x4000, 0x5555, 0x7fff] {
        assert_eq!(s.write_mem(addr, 0xaa), Err(FaultKind::ReadOnlyViolation));
        assert_eq!(s.read_mem(addr), 0);
        assert_eq!(s.memory[addr as usize], 0);
    }
}

#[test]
fn writable_regions_accept_writes() {
    let mut s = GameState::initialize(0x0100, 0xfff3);
    for addr in [0x0000u16, 0x00ff, 0x8000, 0xc000, 0xfeff, 0xff80, 0xffff] {
        assert_eq!(s.write_mem(addr, 0x5a), Ok(()));
        assert_eq!(s.read_mem(addr), 0x5a);
    }
}

#[test]
fn io_window_reads_reflect_last_window_write() {
    let mut s = GameState::initialize(0x0100, 0xfff3);
    assert_eq!(s.write_mem(0xff05, 0x07), Ok(()));
    assert_eq!(s.read_mem(0xff05), 0x07);
    assert_eq!(s.write_mem(0xff05, 0x09), Ok(()));
    assert_eq!(s.read_mem(0xff05), 0x09);
    // A neighbouring window address is untouched.
    assert_eq!(s.read_mem(0xff06), 0);
}

#[test]
fn io_window_never_reflects_the_general_memory_array() {
    let mut s = GameState::initialize(0x0100, 0xfff3);
    // Put a byte into the general memory array at a window address via the
    // image loader; a window read must not see it.
    let mut rom = vec![0u8; 0x10000];
    rom[0xff05] = 0xaa;
    s.load_image(&rom);
    assert_eq!(s.memory[0xff05], 0xaa);
    assert_eq!(s.read_mem(0xff05), 0);
    // And a window write does not touch the general memory array.
    assert_eq!(s.write_mem(0xff05, 0x33), Ok(()));
    assert_eq!(s.memory[0xff05], 0xaa);
    assert_eq!(s.read_mem(0xff05), 0x33);
}

#[test]
fn push_pop_round_trip_restores_sp() {
    let mut s = GameState::initialize(0x0100, 0xfff3);
    assert_eq!(s.push(0xabcd), Ok(()));
    assert_eq!(s.sp, 0xfff1);
    assert_eq!(s.pop(), 0xabcd);
    assert_eq!(s.sp, 0xfff3);
}

#[test]
fn push_lays_out_high_byte_at_lower_address() {
    let mut s = GameState::initialize(0x0100, 0xfffe);
    assert_eq!(s.push(0x0103), Ok(()));
    assert_eq!(s.sp, 0xfffc);
    assert_eq!(s.read_mem(0xfffc), 0x01);
    assert_eq!(s.read_mem(0xfffd), 0x03);
}

#[test]
fn push_into_rom_fails_and_keeps_sp() {
    // sp = 0x0102: the first pushed byte would land at 0x0101, inside the
    // protected program bank.
    let mut s = GameState::initialize(0x0100, 0x0102);
    assert_eq!(s.push(0xbeef), Err(FaultKind::ReadOnlyViolation));
    assert_eq!(s.sp, 0x0102);
    assert_eq!(s.read_mem(0x0101), 0);
}

#[test]
fn register_access_by_name() {
    let mut s = GameState::initialize(0x0100, 0xfff3);
    assert_eq!(s.set_register(&Register::D, 0x42), Ok(()));
    assert_eq!(s.get_register(&Register::D), Ok(0x42));
    assert_eq!(s.regs.d, 0x42);
    assert_eq!(s.get_register(&Register::A), Ok(0));
}

#[test]
fn hl_is_never_a_plain_register() {
    let mut s = GameState::initialize(0x0100, 0xfff3);
    assert_eq!(s.set_register(&Register::HL, 1), Err(FaultKind::InvalidRegisterAccess));
    assert_eq!(s.get_register(&Register::HL), Err(FaultKind::InvalidRegisterAccess));
}

#[test]
fn hl_pair_composition() {
    let mut s = GameState::initialize(0x0100, 0xfff3);
    s.set_hl(0x1234);
    assert_eq!(s.regs.h, 0x12);
    assert_eq!(s.regs.l, 0x34);
    assert_eq!(s.get_hl(), 0x1234);
    s.regs.h = 0xab;
    s.regs.l = 0xcd;
    assert_eq!(s.get_hl(), 0xabcd);
}

#[test]
fn register_names() {
    assert_eq!(reg_to_str(&Register::A), "A");
    assert_eq!(reg_to_str(&Register::B), "B");
    assert_eq!(reg_to_str(&Register::HL), "HL");
}
