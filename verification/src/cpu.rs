//! The fetch-decode-dispatch loop: one total dispatch over every opcode byte,
//! and the run loop that drives it until a fault.
pub mod alu;
pub mod jump;
pub mod memory;
pub mod types;

use vstd::prelude::*;

use crate::cpu::alu::{add_model, and_model, dec_index, dec_model, or_model, xor_model};
use crate::cpu::jump::{
    Condition, call_imm_model, jump_cond_model, jump_imm_model, ret_cond_model,
};
use crate::cpu::memory::{
    Operation, dest_code, ld_imm16_model, ld_imm8_model, ld_rr_faults, ld_rr_model, ldh_load_model,
    ldh_store_model, load_c_model, load_update_model, src_code, store_c_model, store_imm_faults,
    store_imm_model, store_update_faults, store_update_model,
};
use crate::cpu::types::{
    Fault, FaultKind, GameState, StateModel, Trace, fresh_model, loaded_model, push_targets_ok,
    ticks_plus, wrap16,
};

verus! {

/// What one cycle of the machine does: either it ran an instruction, or it
/// stopped on a fault. Either way `next` is the state the machine is left in.
pub ghost enum StepOutcome {
    Ran { next: StateModel },
    Faulted { fault: Fault, next: StateModel },
}

/// The state after a 1-byte, 4-tick instruction with no other effect.
pub open spec fn nop_model(m: StateModel) -> StateModel {
    StateModel { pc: wrap16(m.pc + 1), ticks: ticks_plus(m.ticks, 4), ..m }
}

/// A truncated-instruction fault: the operand bytes would run off the end of
/// the address space.
pub open spec fn trunc_fault(m: StateModel, opcode: u8) -> StepOutcome {
    StepOutcome::Faulted {
        fault: Fault { kind: FaultKind::TruncatedInstruction, pc: m.pc, opcode },
        next: m,
    }
}

/// A fault that leaves the state untouched.
pub open spec fn plain_fault(m: StateModel, kind: FaultKind, opcode: u8) -> StepOutcome {
    StepOutcome::Faulted { fault: Fault { kind, pc: m.pc, opcode }, next: m }
}

/// One full cycle of the machine, as a function of the starting state: fetch
/// the opcode byte at `memory[pc]`, fetch the operand bytes it needs (or
/// fault if too few remain), and dispatch. The dispatch is total: every byte
/// value maps to exactly one outcome.
pub open spec fn step_model(m: StateModel) -> StepOutcome
    recommends
        m.wf(),
{
    let pc = m.pc;
    let opcode = m.mem[pc as int];
    let b1 = m.mem[pc + 1];
    let b2 = m.mem[pc + 2];
    if opcode == 0x00 {
        StepOutcome::Ran { next: nop_model(m) }
    } else if opcode == 0x76 {
        plain_fault(m, FaultKind::HaltEncountered, opcode)
    } else if opcode == 0xc3 {
        if pc >= 0xfffe {
            trunc_fault(m, opcode)
        } else {
            StepOutcome::Ran { next: jump_imm_model(m, b1, b2) }
        }
    } else if opcode == 0xcd {
        if pc >= 0xfffe {
            trunc_fault(m, opcode)
        } else if push_targets_ok(m) {
            StepOutcome::Ran { next: call_imm_model(m, b1, b2) }
        } else {
            StepOutcome::Faulted {
                fault: Fault { kind: FaultKind::ReadOnlyViolation, pc, opcode },
                next: call_imm_model(m, b1, b2),
            }
        }
    } else if opcode == 0x20 {
        if pc >= 0xffff {
            trunc_fault(m, opcode)
        } else {
            StepOutcome::Ran { next: jump_cond_model(m, b1, Condition::NotZero) }
        }
    } else if opcode == 0xf3 {
        StepOutcome::Ran { next: nop_model(m) }
    } else if 0x40 <= opcode <= 0x7f {
        if ld_rr_faults(m, opcode) {
            plain_fault(m, FaultKind::ReadOnlyViolation, opcode)
        } else {
            StepOutcome::Ran { next: ld_rr_model(m, opcode) }
        }
    } else if 0x80 <= opcode <= 0x87 {
        StepOutcome::Ran { next: add_model(m, src_code(opcode)) }
    } else if 0xa0 <= opcode <= 0xa7 {
        StepOutcome::Ran { next: and_model(m, src_code(opcode)) }
    } else if 0xa8 <= opcode <= 0xaf {
        StepOutcome::Ran { next: xor_model(m, src_code(opcode)) }
    } else if 0xb0 <= opcode <= 0xb7 {
        StepOutcome::Ran { next: or_model(m, src_code(opcode)) }
    } else if opcode == 0x05 || opcode == 0x15 || opcode == 0x25 || opcode == 0x35 || opcode
        == 0x0d || opcode == 0x1d || opcode == 0x2d || opcode == 0x3d {
        if dec_index(opcode) == 6 {
            plain_fault(m, FaultKind::InvalidRegisterAccess, opcode)
        } else {
            StepOutcome::Ran { next: dec_model(m, opcode) }
        }
    } else if opcode == 0x22 {
        if store_update_faults(m) {
            plain_fault(m, FaultKind::ReadOnlyViolation, opcode)
        } else {
            StepOutcome::Ran { next: store_update_model(m, Operation::Increment) }
        }
    } else if opcode == 0x32 {
        if store_update_faults(m) {
            plain_fault(m, FaultKind::ReadOnlyViolation, opcode)
        } else {
            StepOutcome::Ran { next: store_update_model(m, Operation::Decrement) }
        }
    } else if opcode == 0x2a {
        StepOutcome::Ran { next: load_update_model(m, Operation::Increment) }
    } else if opcode == 0x3a {
        StepOutcome::Ran { next: load_update_model(m, Operation::Decrement) }
    } else if opcode == 0x06 || opcode == 0x16 || opcode == 0x26 || opcode == 0x36 || opcode
        == 0x0e || opcode == 0x1e || opcode == 0x2e || opcode == 0x3e {
        if pc >= 0xffff {
            trunc_fault(m, opcode)
        } else if dest_code(opcode) == 6 {
            plain_fault(m, FaultKind::InvalidRegisterAccess, opcode)
        } else {
            StepOutcome::Ran { next: ld_imm8_model(m, opcode, b1) }
        }
    } else if opcode == 0x01 || opcode == 0x11 || opcode == 0x21 || opcode == 0x31 {
        if pc >= 0xfffe {
            trunc_fault(m, opcode)
        } else {
            StepOutcome::Ran { next: ld_imm16_model(m, opcode, b1, b2) }
        }
    } else if opcode == 0xd0 {
        StepOutcome::Ran { next: ret_cond_model(m, Condition::NoCarry) }
    } else if opcode == 0xea {
        if pc >= 0xfffe {
            trunc_fault(m, opcode)
        } else if store_imm_faults(b1, b2) {
            plain_fault(m, FaultKind::ReadOnlyViolation, opcode)
        } else {
            StepOutcome::Ran { next: store_imm_model(m, b1, b2) }
        }
    } else if opcode == 0xe2 {
        StepOutcome::Ran { next: store_c_model(m) }
    } else if opcode == 0xf2 {
        StepOutcome::Ran { next: load_c_model(m) }
    } else if opcode == 0xe0 {
        if pc >= 0xffff {
            trunc_fault(m, opcode)
        } else {
            StepOutcome::Ran { next: ldh_store_model(m, b1) }
        }
    } else if opcode == 0xf0 {
        if pc >= 0xffff {
            trunc_fault(m, opcode)
        } else {
            StepOutcome::Ran { next: ldh_load_model(m, b1) }
        }
    } else {
        plain_fault(m, FaultKind::UnimplementedOpcode, opcode)
    }
}

/// The mnemonic the trace carries for each executed opcode.
pub open spec fn spec_mnemonic(opcode: u8) -> Seq<char> {
    if opcode == 0x00 {
        "NOP"@
    } else if opcode == 0xc3 {
        "JP"@
    } else if opcode == 0xcd {
        "CALL"@
    } else if opcode == 0x20 {
        "JP NZ"@
    } else if opcode == 0xf3 {
        "DI"@
    } else if 0x40 <= opcode <= 0x7f && opcode != 0x76 {
        "LD r,r'"@
    } else if 0x80 <= opcode <= 0x87 {
        "ADD A,r"@
    } else if 0xa0 <= opcode <= 0xa7 {
        "AND A,r"@
    } else if 0xa8 <= opcode <= 0xaf {
        "XOR A,r"@
    } else if 0xb0 <= opcode <= 0xb7 {
        "OR A,r"@
    } else if opcode == 0x05 || opcode == 0x15 || opcode == 0x25 || opcode == 0x0d || opcode
        == 0x1d || opcode == 0x2d || opcode == 0x3d {
        "DEC r"@
    } else if opcode == 0x22 {
        "LD (HL+),A"@
    } else if opcode == 0x32 {
        "LD (HL-),A"@
    } else if opcode == 0x2a {
        "LD A,(HL+)"@
    } else if opcode == 0x3a {
        "LD A,(HL-)"@
    } else if opcode == 0x06 || opcode == 0x16 || opcode == 0x26 || opcode == 0x0e || opcode
        == 0x1e || opcode == 0x2e || opcode == 0x3e {
        "LD r,imm8"@
    } else if opcode == 0x01 || opcode == 0x11 || opcode == 0x21 || opcode == 0x31 {
        "LD rr,imm16"@
    } else if opcode == 0xd0 {
        "RET NC"@
    } else if opcode == 0xea {
        "LD (imm16),A"@
    } else if opcode == 0xe2 {
        "LD (C),A"@
    } else if opcode == 0xf2 {
        "LD A,(C)"@
    } else if opcode == 0xe0 {
        "LDH (imm8),A"@
    } else if opcode == 0xf0 {
        "LDH A,(imm8)"@
    } else {
        "?"@
    }
}


/// The display mnemonic for an opcode, as the trace records it.
pub fn mnemonic_of(opcode: u8) -> (r: &'static str)
    ensures
        r@ == spec_mnemonic(opcode),
{
    if opcode == 0x00 {
        "NOP"
    } else if opcode == 0xc3 {
        "JP"
    } else if opcode == 0xcd {
        "CALL"
    } else if opcode == 0x20 {
        "JP NZ"
    } else if opcode == 0xf3 {
        "DI"
    } else if 0x40 <= opcode && opcode <= 0x7f && opcode != 0x76 {
        "LD r,r'"
    } else if 0x80 <= opcode && opcode <= 0x87 {
        "ADD A,r"
    } else if 0xa0 <= opcode && opcode <= 0xa7 {
        "AND A,r"
    } else if 0xa8 <= opcode && opcode <= 0xaf {
        "XOR A,r"
    } else if 0xb0 <= opcode && opcode <= 0xb7 {
        "OR A,r"
    } else if opcode == 0x05 || opcode == 0x15 || opcode == 0x25 || opcode == 0x0d || opcode
        == 0x1d || opcode == 0x2d || opcode == 0x3d {
        "DEC r"
    } else if opcode == 0x22 {
        "LD (HL+),A"
    } else if opcode == 0x32 {
        "LD (HL-),A"
    } else if opcode == 0x2a {
        "LD A,(HL+)"
    } else if opcode == 0x3a {
        "LD A,(HL-)"
    } else if opcode == 0x06 || opcode == 0x16 || opcode == 0x26 || opcode == 0x0e || opcode
        == 0x1e || opcode == 0x2e || opcode == 0x3e {
        "LD r,imm8"
    } else if opcode == 0x01 || opcode == 0x11 || opcode == 0x21 || opcode == 0x31 {
        "LD rr,imm16"
    } else if opcode == 0xd0 {
        "RET NC"
    } else if opcode == 0xea {
        "LD (imm16),A"
    } else if opcode == 0xe2 {
        "LD (C),A"
    } else if opcode == 0xf2 {
        "LD A,(C)"
    } else if opcode == 0xe0 {
        "LDH (imm8),A"
    } else if opcode == 0xf0 {
        "LDH A,(imm8)"
    } else {
        "?"
    }
}

impl GameState {
    /// One instruction cycle: fetch the opcode at `memory[pc]`, fetch its
    /// operand bytes, dispatch, and report either a trace record or the
    /// fault that stopped the cycle, exactly as `step_model` says.
    #[verifier::rlimit(100)]
    pub fn decode(&mut self) -> (r: Result<Trace, Fault>)
        ensures
            match r {
                Ok(t) => step_model(old(self)@) == (StepOutcome::Ran { next: final(self)@ })
                    && t.pc == old(self).pc && t.opcode == old(self)@.mem[old(self).pc as int]
                    && t.mnemonic@ == spec_mnemonic(t.opcode),
                Err(f) => step_model(old(self)@) == (StepOutcome::Faulted {
                    fault: f,
                    next: final(self)@,
                }),
            },
    {
        let pc = self.pc;
        let opcode = self.memory[pc as usize];
        if opcode == 0x00 {
            self.ticks = self.ticks.wrapping_add(4);
            self.pc = self.pc.wrapping_add(1);
            Ok(Trace { pc, opcode, mnemonic: mnemonic_of(opcode) })
        } else if opcode == 0x76 {
            Err(Fault { kind: FaultKind::HaltEncountered, pc, opcode })
        } else if opcode == 0xc3 {
            if pc >= 0xfffe {
                return Err(Fault { kind: FaultKind::TruncatedInstruction, pc, opcode });
            }
            let lo = self.memory[pc as usize + 1];
            let hi = self.memory[pc as usize + 2];
            self.jump_uncond_imm(lo, hi);
            Ok(Trace { pc, opcode, mnemonic: mnemonic_of(opcode) })
        } else if opcode == 0xcd {
            if pc >= 0xfffe {
                return Err(Fault { kind: FaultKind::TruncatedInstruction, pc, opcode });
            }
            let lo = self.memory[pc as usize + 1];
            let hi = self.memory[pc as usize + 2];
            match self.call_uncond_imm(lo, hi) {
                Ok(()) => Ok(Trace { pc, opcode, mnemonic: mnemonic_of(opcode) }),
                Err(k) => Err(Fault { kind: k, pc, opcode }),
            }
        } else if opcode == 0x20 {
            if pc >= 0xffff {
                return Err(Fault { kind: FaultKind::TruncatedInstruction, pc, opcode });
            }
            let offset = self.memory[pc as usize + 1];
            self.jump_cond_imm(offset, Condition::NotZero);
            Ok(Trace { pc, opcode, mnemonic: mnemonic_of(opcode) })
        } else if opcode == 0xf3 {
            self.ticks = self.ticks.wrapping_add(4);
            self.pc = self.pc.wrapping_add(1);
            Ok(Trace { pc, opcode, mnemonic: mnemonic_of(opcode) })
        } else if 0x40 <= opcode && opcode <= 0x7f {
            match self.load_reg(opcode) {
                Ok(()) => Ok(Trace { pc, opcode, mnemonic: mnemonic_of(opcode) }),
                Err(k) => Err(Fault { kind: k, pc, opcode }),
            }
        } else if 0x80 <= opcode && opcode <= 0x87 {
            proof {
                assert(opcode & 0x0f == opcode & 7 && (opcode & 7) < 8) by (bit_vector)
                    requires
                        0x80 <= opcode <= 0x87,
                ;
            }
            self.add_reg(opcode & 0x0f);
            Ok(Trace { pc, opcode, mnemonic: mnemonic_of(opcode) })
        } else if 0xa0 <= opcode && opcode <= 0xa7 {
            proof {
                assert(opcode & 0x0f == opcode & 7 && (opcode & 7) < 8) by (bit_vector)
                    requires
                        0xa0 <= opcode <= 0xa7,
                ;
            }
            self.and_reg(opcode & 0x0f);
            Ok(Trace { pc, opcode, mnemonic: mnemonic_of(opcode) })
        } else if 0xa8 <= opcode && opcode <= 0xaf {
            proof {
                assert((opcode & 0x0f) >= 8 && ((opcode & 0x0f) - 8) as u8 == opcode & 7 && (opcode
                    & 7) < 8) by (bit_vector)
                    requires
                        0xa8 <= opcode <= 0xaf,
                ;
            }
            self.xor_reg((opcode & 0x0f) - 0x8);
            Ok(Trace { pc, opcode, mnemonic: mnemonic_of(opcode) })
        } else if 0xb0 <= opcode && opcode <= 0xb7 {
            proof {
                assert(opcode & 0x0f == opcode & 7 && (opcode & 7) < 8) by (bit_vector)
                    requires
                        0xb0 <= opcode <= 0xb7,
                ;
            }
            self.or_reg(opcode & 0x0f);
            Ok(Trace { pc, opcode, mnemonic: mnemonic_of(opcode) })
        } else if opcode == 0x05 || opcode == 0x15 || opcode == 0x25 || opcode == 0x35 || opcode
            == 0x0d || opcode == 0x1d || opcode == 0x2d || opcode == 0x3d {
            match self.dec_reg(opcode) {
                Ok(()) => Ok(Trace { pc, opcode, mnemonic: mnemonic_of(opcode) }),
                Err(k) => Err(Fault { kind: k, pc, opcode }),
            }
        } else if opcode == 0x22 {
            match self.store_and_update(Operation::Increment) {
                Ok(()) => Ok(Trace { pc, opcode, mnemonic: mnemonic_of(opcode) }),
                Err(k) => Err(Fault { kind: k, pc, opcode }),
            }
        } else if opcode == 0x32 {
            match self.store_and_update(Operation::Decrement) {
                Ok(()) => Ok(Trace { pc, opcode, mnemonic: mnemonic_of(opcode) }),
                Err(k) => Err(Fault { kind: k, pc, opcode }),
            }
        } else if opcode == 0x2a {
            self.load_and_update(Operation::Increment);
            Ok(Trace { pc, opcode, mnemonic: mnemonic_of(opcode) })
        } else if opcode == 0x3a {
            self.load_and_update(Operation::Decrement);
            Ok(Trace { pc, opcode, mnemonic: mnemonic_of(opcode) })
        } else if opcode == 0x06 || opcode == 0x16 || opcode == 0x26 || opcode == 0x36 || opcode
            == 0x0e || opcode == 0x1e || opcode == 0x2e || opcode == 0x3e {
            if pc >= 0xffff {
                return Err(Fault { kind: FaultKind::TruncatedInstruction, pc, opcode });
            }
            let value = self.memory[pc as usize + 1];
            match self.load_word_imm(opcode, value) {
                Ok(()) => Ok(Trace { pc, opcode, mnemonic: mnemonic_of(opcode) }),
                Err(k) => Err(Fault { kind: k, pc, opcode }),
            }
        } else if opcode == 0x01 || opcode == 0x11 || opcode == 0x21 || opcode == 0x31 {
            if pc >= 0xfffe {
                return Err(Fault { kind: FaultKind::TruncatedInstruction, pc, opcode });
            }
            let lo = self.memory[pc as usize + 1];
            let hi = self.memory[pc as usize + 2];
            self.load_dword_imm(opcode, lo, hi);
            Ok(Trace { pc, opcode, mnemonic: mnemonic_of(opcode) })
        } else if opcode == 0xd0 {
            self.ret_cond(Condition::NoCarry);
            Ok(Trace { pc, opcode, mnemonic: mnemonic_of(opcode) })
        } else if opcode == 0xea {
            if pc >= 0xfffe {
                return Err(Fault { kind: FaultKind::TruncatedInstruction, pc, opcode });
            }
            let lo = self.memory[pc as usize + 1];
            let hi = self.memory[pc as usize + 2];
            match self.store_imm_addr(lo, hi) {
                Ok(()) => Ok(Trace { pc, opcode, mnemonic: mnemonic_of(opcode) }),
                Err(k) => Err(Fault { kind: k, pc, opcode }),
            }
        } else if opcode == 0xe2 {
            self.store_a_indirect_c();
            Ok(Trace { pc, opcode, mnemonic: mnemonic_of(opcode) })
        } else if opcode == 0xf2 {
            self.load_a_indirect_c();
            Ok(Trace { pc, opcode, mnemonic: mnemonic_of(opcode) })
        } else if opcode == 0xe0 {
            if pc >= 0xffff {
                return Err(Fault { kind: FaultKind::TruncatedInstruction, pc, opcode });
            }
            let offset = self.memory[pc as usize + 1];
            self.store_a_mem(offset);
            Ok(Trace { pc, opcode, mnemonic: mnemonic_of(opcode) })
        } else if opcode == 0xf0 {
            if pc >= 0xffff {
                return Err(Fault { kind: FaultKind::TruncatedInstruction, pc, opcode });
            }
            let offset = self.memory[pc as usize + 1];
            self.load_a_mem(offset);
            Ok(Trace { pc, opcode, mnemonic: mnemonic_of(opcode) })
        } else {
            Err(Fault { kind: FaultKind::UnimplementedOpcode, pc, opcode })
        }
    }
}

/// Where an unbounded run stands after some number of cycles: still running,
/// or stopped at the fault that ended it (faults are fatal, so a faulted run
/// stays faulted).
pub ghost enum MachineRun {
    Running { m: StateModel },
    Faulted { fault: Fault, m: StateModel },
}

/// The machine after `n` cycles from `m0`.
pub open spec fn run_n(m0: StateModel, n: nat) -> MachineRun
    recommends
        m0.wf(),
    decreases n,
{
    if n == 0 {
        MachineRun::Running { m: m0 }
    } else {
        match run_n(m0, (n - 1) as nat) {
            MachineRun::Running { m } => match step_model(m) {
                StepOutcome::Ran { next } => MachineRun::Running { m: next },
                StepOutcome::Faulted { fault, next } => MachineRun::Faulted { fault, m: next },
            },
            MachineRun::Faulted { fault, m } => MachineRun::Faulted { fault, m },
        }
    }
}

/// The state a run starts from: `pc=0x0100`, `sp=0xFFF3`, registers and
/// flags zeroed, and the program image at the bottom of the address space.
pub open spec fn boot_model(rom: Seq<u8>) -> StateModel {
    loaded_model(fresh_model(0x100, 0xfff3), rom)
}

/// Runs the fetch-decode-dispatch loop on a fresh state loaded with the
/// given program image until a fault stops it, for at most `max_cycles`
/// cycles. `Some(f)` is exactly the fault the machine model reaches within
/// that many cycles from the boot state; `None` means the model is still
/// running after all of them.
pub fn emulate(rom_array: Vec<u8>, max_cycles: u64) -> (r: Option<Fault>)
    ensures
        match r {
            Some(f) => exists|n: nat|
                n <= max_cycles && ((#[trigger] run_n(boot_model(rom_array@), n))
                    matches MachineRun::Faulted { fault, m } && fault == f),
            None => run_n(boot_model(rom_array@), max_cycles as nat) matches MachineRun::Running {
                m,
            },
        },
{
    let mut state = GameState::initialize(0x100, 0xfff3);
    state.load_image(&rom_array);
    proof {
        assert(run_n(boot_model(rom_array@), 0) == (MachineRun::Running { m: state@ }));
    }
    let mut cycles: u64 = 0;
    while cycles < max_cycles
        invariant
            cycles <= max_cycles,
            run_n(boot_model(rom_array@), cycles as nat) == (MachineRun::Running { m: state@ }),
        decreases max_cycles - cycles,
    {
        let ghost pre = state@;
        match state.decode() {
            Ok(_t) => {
                proof {
                    assert(run_n(boot_model(rom_array@), (cycles + 1) as nat) == (MachineRun::Running {
                        m: state@,
                    }));
                }
            },
            Err(f) => {
                proof {
                    assert(run_n(boot_model(rom_array@), (cycles + 1) as nat) == (MachineRun::Faulted {
                        fault: f,
                        m: state@,
                    }));
                }
                return Some(f);
            },
        }
        cycles = cycles + 1;
    }
    None
}

/// The halt opcode always produces a `HaltEncountered` fault carrying the
/// `pc` it was fetched at, and never mutates the state, `pc` included.
pub proof fn lemma_halt_never_mutates(m: StateModel)
    requires
        m.wf(),
        m.mem[m.pc as int] == 0x76,
    ensures
        step_model(m) == (StepOutcome::Faulted {
            fault: Fault { kind: FaultKind::HaltEncountered, pc: m.pc, opcode: 0x76 },
            next: m,
        }),
{
}

} // verus!
