//! Register Transfer Unit: register-to-register and immediate loads, indirect
//! loads and stores through HL, and the high-page (`0xFF00+n`) accesses.
use vstd::prelude::*;

use crate::cpu::types::{
    FaultKind, GameState, Registers, StateModel, hl_model, make16, read_model, reg_value_model,
    rom_protected, ticks_plus, with_hl_model, with_reg_model, wrap16, write_model,
};

verus! {

/// The post-access adjustment of the HL pointer.
#[derive(Clone, Copy, PartialEq, Eq, Structural, Debug)]
pub enum Operation {
    Increment,
    Decrement,
}

/// The canonical register code in bits 0-2 of an opcode.
pub open spec fn src_code(opcode: u8) -> u8 {
    opcode & 7
}

/// The canonical register code in bits 3-5 of an opcode.
pub open spec fn dest_code(opcode: u8) -> u8 {
    (opcode >> 3) & 7
}

/// Whether `LD r,r'` faults: only a store through HL into a protected bank.
pub open spec fn ld_rr_faults(m: StateModel, opcode: u8) -> bool {
    src_code(opcode) != 6 && dest_code(opcode) == 6 && rom_protected(hl_model(m))
}

/// The state after `LD r,r'`: source code 6 reads `memory[hl]` (cost 8),
/// destination code 6 writes `memory[hl]` (cost 8), otherwise register to
/// register (cost 4); `pc` advances over the 1-byte opcode. A rejected store
/// leaves the state unchanged.
pub open spec fn ld_rr_model(m: StateModel, opcode: u8) -> StateModel
    recommends
        m.wf(),
        0x40 <= opcode <= 0x7f,
        opcode != 0x76,
{
    let src = src_code(opcode);
    let dst = dest_code(opcode);
    if src == 6 {
        let v = read_model(m, hl_model(m));
        StateModel {
            pc: wrap16(m.pc + 1),
            ticks: ticks_plus(m.ticks, 8),
            ..with_reg_model(m, dst, v)
        }
    } else if dst == 6 {
        if rom_protected(hl_model(m)) {
            m
        } else {
            StateModel {
                pc: wrap16(m.pc + 1),
                ticks: ticks_plus(m.ticks, 8),
                ..write_model(m, hl_model(m), reg_value_model(m, src))
            }
        }
    } else {
        StateModel {
            pc: wrap16(m.pc + 1),
            ticks: ticks_plus(m.ticks, 4),
            ..with_reg_model(m, dst, reg_value_model(m, src))
        }
    }
}

/// The state after `LD r,imm8`: the operand byte into the register named by
/// bits 3-5, cost 8, `pc` past the 2-byte instruction.
pub open spec fn ld_imm8_model(m: StateModel, opcode: u8, value: u8) -> StateModel
    recommends
        dest_code(opcode) != 6,
{
    StateModel {
        pc: wrap16(m.pc + 2),
        ticks: ticks_plus(m.ticks, 8),
        ..with_reg_model(m, dest_code(opcode), value)
    }
}

/// The register pair named by an `LD rr,imm16` opcode, loaded with the
/// operand bytes: high register gets the high byte.
pub open spec fn ld_pair_model(m: StateModel, opcode: u8, lo: u8, hi: u8) -> StateModel
    recommends
        opcode == 0x01 || opcode == 0x11 || opcode == 0x21,
{
    if opcode == 0x01 {
        StateModel { regs: Registers { b: hi, c: lo, ..m.regs }, ..m }
    } else if opcode == 0x11 {
        StateModel { regs: Registers { d: hi, e: lo, ..m.regs }, ..m }
    } else {
        StateModel { regs: Registers { h: hi, l: lo, ..m.regs }, ..m }
    }
}

/// The state after `LD rr,imm16`: the 16-bit little-endian operand into the
/// named pair, or into `sp` itself, cost 12, `pc` past the 3-byte
/// instruction.
pub open spec fn ld_imm16_model(m: StateModel, opcode: u8, lo: u8, hi: u8) -> StateModel
    recommends
        opcode == 0x01 || opcode == 0x11 || opcode == 0x21 || opcode == 0x31,
{
    let m1 = if opcode == 0x31 {
        StateModel { sp: make16(hi, lo), ..m }
    } else {
        ld_pair_model(m, opcode, lo, hi)
    };
    StateModel { pc: wrap16(m.pc + 3), ticks: ticks_plus(m.ticks, 12), ..m1 }
}

/// The HL pointer after its post-access adjustment.
pub open spec fn hl_step(op: Operation, addr: u16) -> u16 {
    match op {
        Operation::Increment => wrap16(addr + 1),
        Operation::Decrement => wrap16(addr - 1),
    }
}

/// Whether `LD (HL+/-),A` faults: HL points into a protected bank.
pub open spec fn store_update_faults(m: StateModel) -> bool {
    rom_protected(hl_model(m))
}

/// The state after `LD (HL+/-),A`: the accumulator stored at `memory[hl]`,
/// then HL stepped, cost 8, `pc` past the 1-byte instruction. A rejected
/// store leaves the state unchanged.
pub open spec fn store_update_model(m: StateModel, op: Operation) -> StateModel
    recommends
        m.wf(),
{
    let addr = hl_model(m);
    if rom_protected(addr) {
        m
    } else {
        StateModel {
            pc: wrap16(m.pc + 1),
            ticks: ticks_plus(m.ticks, 8),
            ..with_hl_model(write_model(m, addr, m.regs.a), hl_step(op, addr))
        }
    }
}

/// The state after `LD A,(HL+/-)`: the byte at `memory[hl]` into the
/// accumulator, then HL stepped, cost 8, `pc` past the 1-byte instruction.
pub open spec fn load_update_model(m: StateModel, op: Operation) -> StateModel
    recommends
        m.wf(),
{
    let addr = hl_model(m);
    StateModel {
        pc: wrap16(m.pc + 1),
        ticks: ticks_plus(m.ticks, 8),
        ..with_hl_model(with_reg_model(m, 7, read_model(m, addr)), hl_step(op, addr))
    }
}

/// Whether `LD (imm16),A` faults: the operand address is protected.
pub open spec fn store_imm_faults(lo: u8, hi: u8) -> bool {
    rom_protected(make16(hi, lo))
}

/// The state after `LD (imm16),A`: the accumulator stored at the
/// little-endian operand address, cost 16, `pc` past the 3-byte instruction.
/// A rejected store leaves the state unchanged.
pub open spec fn store_imm_model(m: StateModel, lo: u8, hi: u8) -> StateModel
    recommends
        m.wf(),
{
    let addr = make16(hi, lo);
    if rom_protected(addr) {
        m
    } else {
        StateModel {
            pc: wrap16(m.pc + 3),
            ticks: ticks_plus(m.ticks, 16),
            ..write_model(m, addr, m.regs.a)
        }
    }
}

/// The high-page address `0xFF00 + offset`.
pub open spec fn high_page(offset: u8) -> u16 {
    (0xff00 + offset) as u16
}

/// The state after `LDH A,(imm8)`: the byte at `0xFF00+offset` into the
/// accumulator, cost 12, `pc` past the 2-byte instruction.
pub open spec fn ldh_load_model(m: StateModel, offset: u8) -> StateModel
    recommends
        m.wf(),
{
    StateModel {
        pc: wrap16(m.pc + 2),
        ticks: ticks_plus(m.ticks, 12),
        ..with_reg_model(m, 7, read_model(m, high_page(offset)))
    }
}

/// The state after `LDH (imm8),A`: the accumulator stored at `0xFF00+offset`
/// (always writable), cost 12, `pc` past the 2-byte instruction.
pub open spec fn ldh_store_model(m: StateModel, offset: u8) -> StateModel
    recommends
        m.wf(),
{
    StateModel {
        pc: wrap16(m.pc + 2),
        ticks: ticks_plus(m.ticks, 12),
        ..write_model(m, high_page(offset), m.regs.a)
    }
}

/// The high-page address selected by register C.
pub open spec fn indirect_c_addr(m: StateModel) -> u16 {
    (0xff00 + m.regs.c) as u16
}

/// The state after `LD (C),A`: the accumulator stored at `0xFF00+C`, cost 8.
/// This core advances `pc` by 2 here, kept as its observed behavior even
/// though real hardware encodes the instruction in one byte.
pub open spec fn store_c_model(m: StateModel) -> StateModel
    recommends
        m.wf(),
{
    StateModel {
        pc: wrap16(m.pc + 2),
        ticks: ticks_plus(m.ticks, 8),
        ..write_model(m, indirect_c_addr(m), m.regs.a)
    }
}

/// The state after `LD A,(C)`: the byte at `0xFF00+C` into the accumulator,
/// cost 8, with the same 2-byte `pc` advance as the store.
pub open spec fn load_c_model(m: StateModel) -> StateModel
    recommends
        m.wf(),
{
    StateModel {
        pc: wrap16(m.pc + 2),
        ticks: ticks_plus(m.ticks, 8),
        ..with_reg_model(m, 7, read_model(m, indirect_c_addr(m)))
    }
}

impl GameState {
    /// `LD r,r'`: destination code in bits 3-5, source code in bits 0-2;
    /// code 6 on either side goes through `memory[hl]`. A store into a
    /// protected bank fails with `ReadOnlyViolation`.
    pub fn load_reg(&mut self, opcode: u8) -> (r: Result<(), FaultKind>)
        requires
            0x40 <= opcode <= 0x7f,
            opcode != 0x76,
        ensures
            final(self)@ == ld_rr_model(old(self)@, opcode),
            r == (if ld_rr_faults(old(self)@, opcode) {
                Err::<(), FaultKind>(FaultKind::ReadOnlyViolation)
            } else {
                Ok::<(), FaultKind>(())
            }),
    {
        let high = opcode >> 4;
        let low = opcode & 0xf;
        proof {
            assert((opcode >> 4) >= 4 && ((opcode & 0xf) / 8) + (((opcode >> 4) - 4) * 2) == ((
            opcode >> 3) & 7) && ((opcode & 0xf) % 8) == (opcode & 7) && ((opcode >> 3) & 7) < 8
                && (opcode & 7) < 8 && !((opcode & 7) == 6 && ((opcode >> 3) & 7) == 6))
                by (bit_vector)
                requires
                    0x40 <= opcode <= 0x7f && opcode != 0x76,
            ;
        }
        let dest_idx = (low / 8) + (high - 0x4) * 2;
        let source_idx = low % 8;
        if source_idx == 6 {
            let addr = self.get_hl();
            let value = self.read_mem(addr);
            self.reg_write_code(dest_idx, value);
            self.ticks = self.ticks.wrapping_add(8);
            self.pc = self.pc.wrapping_add(1);
            Ok(())
        } else if dest_idx == 6 {
            let addr = self.get_hl();
            let reg_val = self.reg_read_code(source_idx);
            match self.write_mem(addr, reg_val) {
                Ok(()) => {},
                Err(k) => {
                    return Err(k);
                },
            }
            self.ticks = self.ticks.wrapping_add(8);
            self.pc = self.pc.wrapping_add(1);
            Ok(())
        } else {
            let reg_val = self.reg_read_code(source_idx);
            self.reg_write_code(dest_idx, reg_val);
            self.ticks = self.ticks.wrapping_add(4);
            self.pc = self.pc.wrapping_add(1);
            Ok(())
        }
    }

    /// `LD r,imm8`: the operand byte into the register named by bits 3-5 of
    /// the opcode; destination code 6 is unsupported and faults with
    /// `InvalidRegisterAccess`.
    pub fn load_word_imm(&mut self, opcode: u8, value: u8) -> (r: Result<(), FaultKind>)
        requires
            opcode == 0x06 || opcode == 0x16 || opcode == 0x26 || opcode == 0x36 || opcode == 0x0e
                || opcode == 0x1e || opcode == 0x2e || opcode == 0x3e,
        ensures
            final(self)@ == (if dest_code(opcode) == 6 {
                old(self)@
            } else {
                ld_imm8_model(old(self)@, opcode, value)
            }),
            r == (if dest_code(opcode) == 6 {
                Err::<(), FaultKind>(FaultKind::InvalidRegisterAccess)
            } else {
                Ok::<(), FaultKind>(())
            }),
    {
        let high = opcode >> 4;
        let low = opcode & 0xf;
        proof {
            assert(((opcode & 0xf) >> 3) + ((opcode >> 4) * 2) == ((opcode >> 3) & 7) && ((opcode
                >> 3) & 7) < 8 && ((opcode >> 4) * 2) < 8) by (bit_vector)
                requires
                    opcode == 0x06 || opcode == 0x16 || opcode == 0x26 || opcode == 0x36 || opcode
                        == 0x0e || opcode == 0x1e || opcode == 0x2e || opcode == 0x3e,
            ;
        }
        let dest_idx = (low >> 3) + high * 2;
        if dest_idx == 6 {
            return Err(FaultKind::InvalidRegisterAccess);
        }
        self.reg_write_code(dest_idx, value);
        self.ticks = self.ticks.wrapping_add(8);
        self.pc = self.pc.wrapping_add(2);
        Ok(())
    }

    /// The shared tail of `LD rr,imm16` for the true register pairs: high
    /// register gets the high operand byte, low register the low one.
    pub fn load_compound_register(&mut self, opcode: u8, lo: u8, hi: u8)
        requires
            opcode == 0x01 || opcode == 0x11 || opcode == 0x21,
        ensures
            final(self)@ == ld_pair_model(old(self)@, opcode, lo, hi),
    {
        if opcode == 0x01 {
            self.regs.b = hi;
            self.regs.c = lo;
        } else if opcode == 0x11 {
            self.regs.d = hi;
            self.regs.e = lo;
        } else {
            self.regs.h = hi;
            self.regs.l = lo;
        }
    }

    /// `LD rr,imm16`: the little-endian operand into `BC`, `DE`, `HL` or
    /// `SP`, selected by the opcode.
    pub fn load_dword_imm(&mut self, opcode: u8, lo: u8, hi: u8)
        requires
            opcode == 0x01 || opcode == 0x11 || opcode == 0x21 || opcode == 0x31,
        ensures
            final(self)@ == ld_imm16_model(old(self)@, opcode, lo, hi),
    {
        if opcode == 0x31 {
            proof {
                assert(((hi as u16) << 8) | (lo as u16) == hi as u16 * 0x100 + lo as u16)
                    by (bit_vector);
            }
            self.sp = ((hi as u16) << 8) | (lo as u16);
        } else {
            self.load_compound_register(opcode, lo, hi);
        }
        self.ticks = self.ticks.wrapping_add(12);
        self.pc = self.pc.wrapping_add(3);
    }

    /// `LD (HL+),A` / `LD (HL-),A`: store the accumulator at `memory[hl]`,
    /// then step HL. A store into a protected bank fails with
    /// `ReadOnlyViolation`.
    pub fn store_and_update(&mut self, operation: Operation) -> (r: Result<(), FaultKind>)
        ensures
            final(self)@ == store_update_model(old(self)@, operation),
            r == (if store_update_faults(old(self)@) {
                Err::<(), FaultKind>(FaultKind::ReadOnlyViolation)
            } else {
                Ok::<(), FaultKind>(())
            }),
    {
        let addr = self.get_hl();
        let value = self.regs.a;
        match self.write_mem(addr, value) {
            Ok(()) => {},
            Err(k) => {
                return Err(k);
            },
        }
        let new_addr = match operation {
            Operation::Decrement => addr.wrapping_sub(1),
            Operation::Increment => addr.wrapping_add(1),
        };
        self.set_hl(new_addr);
        self.ticks = self.ticks.wrapping_add(8);
        self.pc = self.pc.wrapping_add(1);
        Ok(())
    }

    /// `LD A,(HL+)` / `LD A,(HL-)`: load the accumulator from `memory[hl]`,
    /// then step HL.
    pub fn load_and_update(&mut self, operation: Operation)
        ensures
            final(self)@ == load_update_model(old(self)@, operation),
    {
        let addr = self.get_hl();
        let value = self.read_mem(addr);
        self.regs.a = value;
        let new_addr = match operation {
            Operation::Decrement => addr.wrapping_sub(1),
            Operation::Increment => addr.wrapping_add(1),
        };
        self.set_hl(new_addr);
        self.ticks = self.ticks.wrapping_add(8);
        self.pc = self.pc.wrapping_add(1);
    }

    /// `LD (imm16),A`: store the accumulator at the little-endian operand
    /// address. A store into a protected bank fails with
    /// `ReadOnlyViolation`.
    pub fn store_imm_addr(&mut self, lo: u8, hi: u8) -> (r: Result<(), FaultKind>)
        ensures
            final(self)@ == store_imm_model(old(self)@, lo, hi),
            r == (if store_imm_faults(lo, hi) {
                Err::<(), FaultKind>(FaultKind::ReadOnlyViolation)
            } else {
                Ok::<(), FaultKind>(())
            }),
    {
        proof {
            assert(((hi as u16) << 8) | (lo as u16) == hi as u16 * 0x100 + lo as u16)
                by (bit_vector);
        }
        let addr = ((hi as u16) << 8) | (lo as u16);
        let value = self.regs.a;
        match self.write_mem(addr, value) {
            Ok(()) => {},
            Err(k) => {
                return Err(k);
            },
        }
        self.ticks = self.ticks.wrapping_add(16);
        self.pc = self.pc.wrapping_add(3);
        Ok(())
    }

    /// `LDH A,(imm8)`: load the accumulator from the high page at
    /// `0xFF00+offset`.
    pub fn load_a_mem(&mut self, offset: u8)
        ensures
            final(self)@ == ldh_load_model(old(self)@, offset),
    {
        let addr = 0xff00u16.wrapping_add(offset as u16);
        let value = self.read_mem(addr);
        self.regs.a = value;
        self.ticks = self.ticks.wrapping_add(12);
        self.pc = self.pc.wrapping_add(2);
    }

    /// `LDH (imm8),A`: store the accumulator into the high page at
    /// `0xFF00+offset`; the high page is never write-protected.
    pub fn store_a_mem(&mut self, offset: u8)
        ensures
            final(self)@ == ldh_store_model(old(self)@, offset),
    {
        let addr = 0xff00u16.wrapping_add(offset as u16);
        let value = self.regs.a;
        match self.write_mem(addr, value) {
            Ok(()) => {},
            Err(_) => {},
        }
        self.ticks = self.ticks.wrapping_add(12);
        self.pc = self.pc.wrapping_add(2);
    }

    /// `LD (C),A`: store the accumulator at `0xFF00+C`, with this core's
    /// 2-byte `pc` advance.
    pub fn store_a_indirect_c(&mut self)
        ensures
            final(self)@ == store_c_model(old(self)@),
    {
        let regc = self.regs.c;
        let addr = 0xff00u16.wrapping_add(regc as u16);
        let value = self.regs.a;
        match self.write_mem(addr, value) {
            Ok(()) => {},
            Err(_) => {},
        }
        self.ticks = self.ticks.wrapping_add(8);
        self.pc = self.pc.wrapping_add(2);
    }

    /// `LD A,(C)`: load the accumulator from `0xFF00+C`, with this core's
    /// 2-byte `pc` advance.
    pub fn load_a_indirect_c(&mut self)
        ensures
            final(self)@ == load_c_model(old(self)@),
    {
        let regc = self.regs.c;
        let addr = 0xff00u16.wrapping_add(regc as u16);
        let value = self.read_mem(addr);
        self.regs.a = value;
        self.ticks = self.ticks.wrapping_add(8);
        self.pc = self.pc.wrapping_add(2);
    }
}

} // verus!
