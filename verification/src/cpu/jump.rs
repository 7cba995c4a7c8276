//! Control Flow Unit: absolute jumps, calls, conditional relative jumps and
//! conditional returns.
use vstd::prelude::*;

use crate::cpu::types::{
    FaultKind, Flags, GameState, StateModel, make16, pop_model, pop_value_model, push_model,
    push_targets_ok, ticks_plus, wrap16,
};

verus! {

/// The flag conditions consulted by conditional control flow. Only this set
/// is implemented; a carry-set condition is outside the present scope.
#[derive(Clone, Copy, PartialEq, Eq, Structural, Debug)]
pub enum Condition {
    Zero,
    NotZero,
    NoCarry,
}

/// The signed value of an 8-bit two's-complement offset byte.
pub open spec fn sext8(b: u8) -> int {
    if b < 0x80 {
        b as int
    } else {
        b - 0x100
    }
}

/// Whether a condition holds of the current flags.
pub open spec fn cond_holds(f: Flags, c: Condition) -> bool {
    match c {
        Condition::Zero => f.zero,
        Condition::NotZero => !f.zero,
        Condition::NoCarry => !f.carry,
    }
}

/// The state after `JP imm16`: `pc` at the little-endian operand, 16 ticks.
pub open spec fn jump_imm_model(m: StateModel, lo: u8, hi: u8) -> StateModel {
    StateModel { pc: make16(hi, lo), ticks: ticks_plus(m.ticks, 16), ..m }
}

/// The state after `CALL imm16`: the address of the next instruction
/// (`pc + 3`) pushed, then `pc` at the little-endian operand, 24 ticks. A
/// push rejected by the write protection stops the call where it stands.
pub open spec fn call_imm_model(m: StateModel, lo: u8, hi: u8) -> StateModel
    recommends
        m.wf(),
{
    let m1 = push_model(m, wrap16(m.pc + 3));
    if push_targets_ok(m) {
        StateModel { pc: make16(hi, lo), ticks: ticks_plus(m1.ticks, 24), ..m1 }
    } else {
        m1
    }
}

/// The state after a conditional relative jump: taken, `pc` moves by the
/// signed offset measured past this 2-byte instruction at cost 12; not
/// taken, `pc` steps over it at cost 8.
pub open spec fn jump_cond_model(m: StateModel, offset: u8, c: Condition) -> StateModel {
    if cond_holds(m.flags, c) {
        StateModel { pc: wrap16(m.pc + sext8(offset) + 2), ticks: ticks_plus(m.ticks, 12), ..m }
    } else {
        StateModel { pc: wrap16(m.pc + 2), ticks: ticks_plus(m.ticks, 8), ..m }
    }
}

/// The state after a conditional return: taken, `pc` comes off the stack at
/// cost 20; not taken, `pc` steps over the 1-byte instruction at cost 8.
pub open spec fn ret_cond_model(m: StateModel, c: Condition) -> StateModel
    recommends
        m.wf(),
{
    if cond_holds(m.flags, c) {
        StateModel { pc: pop_value_model(m), ticks: ticks_plus(m.ticks, 20), ..pop_model(m) }
    } else {
        StateModel { pc: wrap16(m.pc + 1), ticks: ticks_plus(m.ticks, 8), ..m }
    }
}

/// The signed 8-bit reading of an operand byte, as two's complement.
pub fn ubyte_to_sbyte(value: u8) -> (r: i16)
    ensures
        r == sext8(value),
{
    proof {
        assert((value & 0x80) == (if value < 0x80 { 0u8 } else { 0x80u8 })) by (bit_vector);
        assert((value & 0x7f) == (if value < 0x80 { value } else { (value - 0x80) as u8 }))
            by (bit_vector);
    }
    -((value & 0x80) as i16) + ((value & 0x7f) as i16)
}

impl GameState {
    /// `JP imm16`: unconditional absolute jump to the little-endian operand.
    pub fn jump_uncond_imm(&mut self, lo: u8, hi: u8)
        ensures
            final(self)@ == jump_imm_model(old(self)@, lo, hi),
    {
        proof {
            assert(((hi as u16) << 8) | (lo as u16) == hi as u16 * 0x100 + lo as u16)
                by (bit_vector);
        }
        let new_addr = ((hi as u16) << 8) | (lo as u16);
        self.pc = new_addr;
        self.ticks = self.ticks.wrapping_add(16);
    }

    /// `CALL imm16`: push the address of the following instruction, then jump
    /// to the little-endian operand. A push into a protected bank fails with
    /// `ReadOnlyViolation` and the call does not change `pc`.
    pub fn call_uncond_imm(&mut self, lo: u8, hi: u8) -> (r: Result<(), FaultKind>)
        ensures
            final(self)@ == call_imm_model(old(self)@, lo, hi),
            r == (if push_targets_ok(old(self)@) {
                Ok::<(), FaultKind>(())
            } else {
                Err::<(), FaultKind>(FaultKind::ReadOnlyViolation)
            }),
    {
        proof {
            assert(((hi as u16) << 8) | (lo as u16) == hi as u16 * 0x100 + lo as u16)
                by (bit_vector);
        }
        let new_addr = ((hi as u16) << 8) | (lo as u16);
        let call_pc = self.pc.wrapping_add(3);
        match self.push(call_pc) {
            Ok(()) => {},
            Err(k) => {
                return Err(k);
            },
        }
        self.pc = new_addr;
        self.ticks = self.ticks.wrapping_add(24);
        Ok(())
    }

    /// Conditional relative jump: the offset byte is two's-complement,
    /// measured from the address after this 2-byte instruction.
    pub fn jump_cond_imm(&mut self, offset: u8, condition: Condition)
        ensures
            final(self)@ == jump_cond_model(old(self)@, offset, condition),
    {
        let jump = match condition {
            Condition::Zero => self.flags.zero,
            Condition::NotZero => !self.flags.zero,
            Condition::NoCarry => !self.flags.carry,
        };
        if jump {
            let off = ubyte_to_sbyte(offset);
            self.pc = self.pc.wrapping_add_signed(off).wrapping_add(2);
            self.ticks = self.ticks.wrapping_add(12);
        } else {
            self.pc = self.pc.wrapping_add(2);
            self.ticks = self.ticks.wrapping_add(8);
        }
    }

    /// Conditional return: taken, `pc` is popped off the stack; not taken,
    /// `pc` steps over the 1-byte instruction.
    pub fn ret_cond(&mut self, condition: Condition)
        ensures
            final(self)@ == ret_cond_model(old(self)@, condition),
    {
        let do_return = match condition {
            Condition::Zero => self.flags.zero,
            Condition::NotZero => !self.flags.zero,
            Condition::NoCarry => !self.flags.carry,
        };
        if do_return {
            self.pc = self.pop();
            self.ticks = self.ticks.wrapping_add(20);
        } else {
            self.pc = self.pc.wrapping_add(1);
            self.ticks = self.ticks.wrapping_add(8);
        }
    }
}

} // verus!
