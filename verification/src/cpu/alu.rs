//! Arithmetic/Logic Unit: accumulator arithmetic and logic instructions and
//! their flag updates.
use vstd::prelude::*;

use crate::cpu::types::{
    FaultKind, Flags, GameState, Registers, StateModel, hl_model, read_model, reg_value_model,
    ticks_plus, with_reg_model, wrap16,
};

verus! {

/// The accumulator operations that share the register-operand shape.
#[derive(Clone, Copy, PartialEq, Eq, Structural, Debug)]
pub enum AluOp {
    Add,
    And,
    Xor,
    Or,
}

/// Operand 1 of an accumulator operation: the register named by canonical
/// code `index`, or the byte at `memory[hl]` for code 6.
pub open spec fn alu_operand(m: StateModel, index: u8) -> u8
    recommends
        m.wf(),
        index < 8,
{
    if index == 6 {
        read_model(m, hl_model(m))
    } else {
        reg_value_model(m, index)
    }
}

/// Tick cost of an accumulator operation: 8 with a memory operand, else 4.
pub open spec fn alu_cost(index: u8) -> u64 {
    if index == 6 {
        8
    } else {
        4
    }
}

/// 8-bit wrapping addition.
pub open spec fn add8(x: u8, y: u8) -> u8 {
    if x + y > 0xff {
        (x + y - 0x100) as u8
    } else {
        (x + y) as u8
    }
}

/// The carry flag after `ADD`: unsigned overflow out of bit 7.
pub open spec fn add_carry(x: u8, y: u8) -> bool {
    x + y >= 0x100
}

/// The half-carry flag after `ADD`: carry out of bit 3.
pub open spec fn add_half_carry(x: u8, y: u8) -> bool {
    (x & 0xf) + (y & 0xf) > 0xf
}

/// The result an accumulator operation computes.
pub open spec fn alu_apply(op: AluOp, x: u8, y: u8) -> u8 {
    match op {
        AluOp::Add => add8(x, y),
        AluOp::And => x & y,
        AluOp::Xor => x ^ y,
        AluOp::Or => x | y,
    }
}

/// The state after the shared shape of an accumulator operation: the result
/// in the accumulator, the instruction's cost charged, `pc` advanced by one.
/// Flags are not touched here; each operation sets its own.
pub open spec fn do_op_model(m: StateModel, op: AluOp, index: u8) -> StateModel
    recommends
        m.wf(),
        index < 8,
{
    let x = m.regs.a;
    let y = alu_operand(m, index);
    StateModel {
        regs: Registers { a: alu_apply(op, x, y), ..m.regs },
        pc: wrap16(m.pc + 1),
        ticks: ticks_plus(m.ticks, alu_cost(index)),
        ..m
    }
}

/// The state after `ADD A,r`.
pub open spec fn add_model(m: StateModel, index: u8) -> StateModel
    recommends
        m.wf(),
        index < 8,
{
    let x = m.regs.a;
    let y = alu_operand(m, index);
    StateModel {
        flags: Flags {
            zero: add8(x, y) == 0,
            subtract: false,
            half_carry: add_half_carry(x, y),
            carry: add_carry(x, y),
        },
        ..do_op_model(m, AluOp::Add, index)
    }
}

/// The state after `AND A,r`.
pub open spec fn and_model(m: StateModel, index: u8) -> StateModel
    recommends
        m.wf(),
        index < 8,
{
    let x = m.regs.a;
    let y = alu_operand(m, index);
    StateModel {
        flags: Flags { zero: (x & y) == 0, subtract: false, half_carry: true, carry: false },
        ..do_op_model(m, AluOp::And, index)
    }
}

/// The state after `XOR A,r`.
pub open spec fn xor_model(m: StateModel, index: u8) -> StateModel
    recommends
        m.wf(),
        index < 8,
{
    let x = m.regs.a;
    let y = alu_operand(m, index);
    StateModel {
        flags: Flags { zero: (x ^ y) == 0, subtract: false, half_carry: false, carry: false },
        ..do_op_model(m, AluOp::Xor, index)
    }
}

/// The state after `OR A,r`.
pub open spec fn or_model(m: StateModel, index: u8) -> StateModel
    recommends
        m.wf(),
        index < 8,
{
    let x = m.regs.a;
    let y = alu_operand(m, index);
    StateModel {
        flags: Flags { zero: (x | y) == 0, subtract: false, half_carry: false, carry: false },
        ..do_op_model(m, AluOp::Or, index)
    }
}

/// The register code bits 3-5 of an opcode carry for a `DEC` instruction.
pub open spec fn dec_index(opcode: u8) -> u8 {
    (opcode >> 3) & 7
}

/// 8-bit wrapping decrement.
pub open spec fn dec8(x: u8) -> u8 {
    if x == 0 {
        0xff
    } else {
        (x - 1) as u8
    }
}

/// The state after `DEC r`. The half-carry rule `new != 0x0f` is this core's
/// observed behavior, kept as it stands; the carry flag is left untouched.
pub open spec fn dec_model(m: StateModel, opcode: u8) -> StateModel
    recommends
        m.wf(),
        dec_index(opcode) != 6,
{
    let code = dec_index(opcode);
    let new = dec8(reg_value_model(m, code));
    StateModel {
        flags: Flags {
            zero: new == 0,
            subtract: true,
            half_carry: new != 0x0f,
            carry: m.flags.carry,
        },
        pc: wrap16(m.pc + 1),
        ticks: ticks_plus(m.ticks, 4),
        ..with_reg_model(m, code, new)
    }
}

impl GameState {
    /// The shape every accumulator operation shares: fetch operand 1 by
    /// register code (code 6 reads `memory[hl]` at cost 8, others cost 4),
    /// apply the operation to the accumulator, write the result back, charge
    /// the cost and step past the 1-byte opcode. Returns the two operands and
    /// the result so the caller can compute its flags.
    fn do_op_reg(&mut self, op: AluOp, index: u8) -> (r: (u8, u8, u8))
        requires
            index < 8,
        ensures
            r.0 == old(self)@.regs.a,
            r.1 == alu_operand(old(self)@, index),
            r.2 == alu_apply(op, r.0, r.1),
            final(self)@ == do_op_model(old(self)@, op, index),
    {
        let op0 = self.regs.a;
        let op1: u8;
        let cost: u64;
        if index == 6 {
            let addr = self.get_hl();
            op1 = self.read_mem(addr);
            cost = 8;
        } else {
            op1 = self.reg_read_code(index);
            cost = 4;
        }
        let result = match op {
            AluOp::Add => op0.wrapping_add(op1),
            AluOp::And => op0 & op1,
            AluOp::Xor => op0 ^ op1,
            AluOp::Or => op0 | op1,
        };
        self.regs.a = result;
        self.ticks = self.ticks.wrapping_add(cost);
        self.pc = self.pc.wrapping_add(1);
        (op0, op1, result)
    }

    /// `ADD A,r`: wrapping addition into the accumulator. Z is set iff the
    /// result is zero, N is cleared, H on carry out of bit 3, C on unsigned
    /// overflow.
    pub fn add_reg(&mut self, index: u8)
        requires
            index < 8,
        ensures
            final(self)@ == add_model(old(self)@, index),
    {
        let (op0, op1, result) = self.do_op_reg(AluOp::Add, index);
        proof {
            assert(op0 & 0xf < 0x10) by (bit_vector);
            assert(op1 & 0xf < 0x10) by (bit_vector);
        }
        self.flags.zero = result == 0;
        self.flags.subtract = false;
        self.flags.half_carry = (op0 & 0xf) + (op1 & 0xf) > 0xf;
        self.flags.carry = result < op0 || result < op1;
    }

    /// `AND A,r`: bitwise and into the accumulator. Z iff the result is zero,
    /// H set, N and C cleared.
    pub fn and_reg(&mut self, index: u8)
        requires
            index < 8,
        ensures
            final(self)@ == and_model(old(self)@, index),
    {
        let (_op0, _op1, result) = self.do_op_reg(AluOp::And, index);
        self.flags.zero = result == 0;
        self.flags.subtract = false;
        self.flags.half_carry = true;
        self.flags.carry = false;
    }

    /// `XOR A,r`: bitwise exclusive or into the accumulator. Z iff the result
    /// is zero, N, H and C cleared.
    pub fn xor_reg(&mut self, index: u8)
        requires
            index < 8,
        ensures
            final(self)@ == xor_model(old(self)@, index),
    {
        let (_op0, _op1, result) = self.do_op_reg(AluOp::Xor, index);
        self.flags.zero = result == 0;
        self.flags.subtract = false;
        self.flags.half_carry = false;
        self.flags.carry = false;
    }

    /// `OR A,r`: bitwise or into the accumulator. Z iff the result is zero,
    /// N, H and C cleared.
    pub fn or_reg(&mut self, index: u8)
        requires
            index < 8,
        ensures
            final(self)@ == or_model(old(self)@, index),
    {
        let (_op0, _op1, result) = self.do_op_reg(AluOp::Or, index);
        self.flags.zero = result == 0;
        self.flags.subtract = false;
        self.flags.half_carry = false;
        self.flags.carry = false;
    }

    /// `DEC r`: wrapping decrement of the register named by bits 3-5 of the
    /// opcode; code 6 is unsupported and faults with `InvalidRegisterAccess`.
    /// Z iff the new value is zero, N set, H per this core's `new != 0x0f`
    /// rule; the carry flag is left untouched.
    pub fn dec_reg(&mut self, opcode: u8) -> (r: Result<(), FaultKind>)
        requires
            opcode == 0x05 || opcode == 0x15 || opcode == 0x25 || opcode == 0x35 || opcode == 0x0d
                || opcode == 0x1d || opcode == 0x2d || opcode == 0x3d,
        ensures
            final(self)@ == (if dec_index(opcode) == 6 {
                old(self)@
            } else {
                dec_model(old(self)@, opcode)
            }),
            r == (if dec_index(opcode) == 6 {
                Err::<(), FaultKind>(FaultKind::InvalidRegisterAccess)
            } else {
                Ok::<(), FaultKind>(())
            }),
    {
        proof {
            assert(((opcode & 0xf) >> 3) + ((opcode >> 4) << 1) == ((opcode >> 3) & 7)
                && ((opcode >> 3) & 7) < 8) by (bit_vector)
                requires
                    opcode == 0x05 || opcode == 0x15 || opcode == 0x25 || opcode == 0x35 || opcode
                        == 0x0d || opcode == 0x1d || opcode == 0x2d || opcode == 0x3d,
            ;
        }
        let index = ((opcode & 0xf) >> 3) + ((opcode >> 4) << 1);
        if index == 6 {
            return Err(FaultKind::InvalidRegisterAccess);
        }
        let new_val = self.reg_read_code(index).wrapping_sub(1);
        self.reg_write_code(index, new_val);
        self.ticks = self.ticks.wrapping_add(4);
        self.flags.zero = new_val == 0;
        self.flags.subtract = true;
        self.flags.half_carry = new_val != 0x0f;
        self.pc = self.pc.wrapping_add(1);
        Ok(())
    }
}

/// For all 8-bit operands, `ADD` sets Z exactly when the sum is zero modulo
/// 256, C exactly when the sum reaches 256, H exactly when the low nibbles
/// sum past 0xf, and always clears N.
pub proof fn lemma_add_flags(m: StateModel, index: u8)
    requires
        m.wf(),
        index < 8,
    ensures
        ({
            let a = m.regs.a;
            let b = alu_operand(m, index);
            let f = add_model(m, index).flags;
            &&& f.zero <==> (a + b) % 0x100 == 0
            &&& f.carry <==> a + b >= 0x100
            &&& f.half_carry <==> (a & 0xf) + (b & 0xf) > 0xf
            &&& !f.subtract
        }),
{
    let a = m.regs.a;
    let b = alu_operand(m, index);
    assert(add8(a, b) == 0 <==> (a + b) % 0x100 == 0) by (bit_vector);
}

/// `AND`, `OR` and `XOR` always clear C and N; H is set by `AND` and cleared
/// by `OR` and `XOR`; Z reflects whether the computed result is zero.
pub proof fn lemma_bit_ops_flags(m: StateModel, index: u8)
    requires
        m.wf(),
        index < 8,
    ensures
        ({
            let a = m.regs.a;
            let b = alu_operand(m, index);
            &&& and_model(m, index).flags == (Flags {
                zero: (a & b) == 0,
                subtract: false,
                half_carry: true,
                carry: false,
            })
            &&& or_model(m, index).flags == (Flags {
                zero: (a | b) == 0,
                subtract: false,
                half_carry: false,
                carry: false,
            })
            &&& xor_model(m, index).flags == (Flags {
                zero: (a ^ b) == 0,
                subtract: false,
                half_carry: false,
                carry: false,
            })
        }),
{
}

} // verus!
