//! Processor state and memory: registers, flags, the 64KB address space with
//! its access rules, the memory-mapped I/O window, and the call stack.
use vstd::prelude::*;

verus! {

/// The seven independently addressable 8-bit registers.
#[derive(Clone, Copy, PartialEq, Eq, Structural, Debug)]
pub struct Registers {
    pub a: u8,
    pub b: u8,
    pub c: u8,
    pub d: u8,
    pub e: u8,
    pub h: u8,
    pub l: u8,
}

/// The four condition flags written by flag-affecting instructions.
#[derive(Clone, Copy, PartialEq, Eq, Structural, Debug)]
pub struct Flags {
    pub zero: bool,
    pub subtract: bool,
    pub half_carry: bool,
    pub carry: bool,
}

/// A register name as selected by the canonical 3-bit register code
/// (`0=B,1=C,2=D,3=E,4=H,5=L,6=HL-indirect,7=A`).
#[derive(Clone, Copy, PartialEq, Eq, Structural, Debug)]
pub enum Register {
    A,
    B,
    C,
    D,
    E,
    H,
    L,
    HL,
}

/// The reasons a run stops; every fault is fatal in this scope.
#[derive(Clone, Copy, PartialEq, Eq, Structural, Debug)]
pub enum FaultKind {
    /// A write targeted a protected program-bank address.
    ReadOnlyViolation,
    /// Register code 6 (HL-indirect) was used where only a plain register is allowed.
    InvalidRegisterAccess,
    /// Too few bytes remain in the address space for the instruction's operands.
    TruncatedInstruction,
    /// The opcode byte is not in the dispatch table.
    UnimplementedOpcode,
    /// The halt opcode was reached.
    HaltEncountered,
}

/// A fault together with the program counter and opcode at the time it arose.
#[derive(Clone, Copy, PartialEq, Eq, Structural, Debug)]
pub struct Fault {
    pub kind: FaultKind,
    pub pc: u16,
    pub opcode: u8,
}

/// One cycle's trace record: where the opcode was fetched, what it was, and a
/// human-readable mnemonic. A diagnostic side channel, not part of correctness.
#[derive(Clone, Copy, Debug)]
pub struct Trace {
    pub pc: u16,
    pub opcode: u8,
    pub mnemonic: &'static str,
}

/// The complete CPU and memory state of one emulated processor.
pub struct GameState {
    pub pc: u16,
    pub sp: u16,
    pub ticks: u64,
    pub flags: Flags,
    pub regs: Registers,
    pub memory: [u8; 0x10000],
    pub hardware_io: [u8; 0x80],
}

/// The mathematical model of a `GameState`: the same scalar fields with the
/// two byte arrays abstracted to sequences.
pub ghost struct StateModel {
    pub pc: u16,
    pub sp: u16,
    pub ticks: u64,
    pub flags: Flags,
    pub regs: Registers,
    pub mem: Seq<u8>,
    pub io: Seq<u8>,
}

impl StateModel {
    /// Both backing stores have their fixed hardware sizes.
    pub open spec fn wf(self) -> bool {
        self.mem.len() == 0x10000 && self.io.len() == 0x80
    }
}

impl View for GameState {
    type V = StateModel;

    open spec fn view(&self) -> StateModel {
        StateModel {
            pc: self.pc,
            sp: self.sp,
            ticks: self.ticks,
            flags: self.flags,
            regs: self.regs,
            mem: self.memory@,
            io: self.hardware_io@,
        }
    }
}

/// Reduction of an integer into the 16-bit address space, for offsets that stay
/// within one wrap of it.
pub open spec fn wrap16(x: int) -> u16
    recommends
        -0x10000 <= x < 0x20000,
{
    if x < 0 {
        (x + 0x10000) as u16
    } else if x > 0xffff {
        (x - 0x10000) as u16
    } else {
        x as u16
    }
}

/// 64-bit tick counter advance; the counter wraps at its maximum.
pub open spec fn ticks_plus(t: u64, c: u64) -> u64 {
    if t + c > u64::MAX {
        (t + c - 0x1_0000_0000_0000_0000) as u64
    } else {
        (t + c) as u64
    }
}

/// Low byte of a 16-bit value.
pub open spec fn low8(v: u16) -> u8 {
    (v % 0x100) as u8
}

/// High byte of a 16-bit value.
pub open spec fn high8(v: u16) -> u8 {
    (v / 0x100) as u8
}

/// The 16-bit value with the given high and low bytes.
pub open spec fn make16(hi: u8, lo: u8) -> u16 {
    (hi * 0x100 + lo) as u16
}

/// The memory-mapped I/O window.
pub open spec fn in_io_window(addr: u16) -> bool {
    0xff00 <= addr <= 0xff7f
}

/// The protected program banks: the fixed bank and the switchable bank.
pub open spec fn rom_protected(addr: u16) -> bool {
    0x0100 <= addr <= 0x7fff
}

/// What a read at `addr` observes: the I/O window is backed by `io`,
/// everything else by `mem`.
pub open spec fn read_model(m: StateModel, addr: u16) -> u8
    recommends
        m.wf(),
{
    if in_io_window(addr) {
        m.io[addr - 0xff00]
    } else {
        m.mem[addr as int]
    }
}

/// The state after a write at `addr`: rejected writes leave the state
/// untouched, window writes land in `io`, all others in `mem`.
pub open spec fn write_model(m: StateModel, addr: u16, value: u8) -> StateModel
    recommends
        m.wf(),
{
    if rom_protected(addr) {
        m
    } else if in_io_window(addr) {
        StateModel { io: m.io.update(addr - 0xff00, value), ..m }
    } else {
        StateModel { mem: m.mem.update(addr as int, value), ..m }
    }
}

/// The state at run start: given `pc` and `sp`, everything else zeroed.
pub open spec fn fresh_model(pc: u16, sp: u16) -> StateModel {
    StateModel {
        pc: pc,
        sp: sp,
        ticks: 0,
        flags: Flags { zero: false, subtract: false, half_carry: false, carry: false },
        regs: Registers { a: 0, b: 0, c: 0, d: 0, e: 0, h: 0, l: 0 },
        mem: Seq::new(0x10000, |i: int| 0u8),
        io: Seq::new(0x80, |i: int| 0u8),
    }
}

/// The state after the program image `rom` has been copied to the bottom of
/// the address space (bytes past the end of the space are dropped).
pub open spec fn loaded_model(m: StateModel, rom: Seq<u8>) -> StateModel
    recommends
        m.wf(),
{
    StateModel {
        mem: Seq::new(0x10000, |i: int| if i < rom.len() { rom[i] } else { m.mem[i] }),
        ..m
    }
}

/// The value of the plain register named by canonical code `code`.
pub open spec fn reg_value_model(m: StateModel, code: u8) -> u8
    recommends
        code < 8 && code != 6,
{
    if code == 0 {
        m.regs.b
    } else if code == 1 {
        m.regs.c
    } else if code == 2 {
        m.regs.d
    } else if code == 3 {
        m.regs.e
    } else if code == 4 {
        m.regs.h
    } else if code == 5 {
        m.regs.l
    } else {
        m.regs.a
    }
}

/// The state with the plain register named by canonical code `code` set to `value`.
pub open spec fn with_reg_model(m: StateModel, code: u8, value: u8) -> StateModel
    recommends
        code < 8 && code != 6,
{
    if code == 0 {
        StateModel { regs: Registers { b: value, ..m.regs }, ..m }
    } else if code == 1 {
        StateModel { regs: Registers { c: value, ..m.regs }, ..m }
    } else if code == 2 {
        StateModel { regs: Registers { d: value, ..m.regs }, ..m }
    } else if code == 3 {
        StateModel { regs: Registers { e: value, ..m.regs }, ..m }
    } else if code == 4 {
        StateModel { regs: Registers { h: value, ..m.regs }, ..m }
    } else if code == 5 {
        StateModel { regs: Registers { l: value, ..m.regs }, ..m }
    } else {
        StateModel { regs: Registers { a: value, ..m.regs }, ..m }
    }
}

/// The canonical 3-bit code of a register name.
pub open spec fn reg_code(r: Register) -> u8 {
    match r {
        Register::B => 0,
        Register::C => 1,
        Register::D => 2,
        Register::E => 3,
        Register::H => 4,
        Register::L => 5,
        Register::HL => 6,
        Register::A => 7,
    }
}

/// The 16-bit pointer composed from the `h`,`l` register pair.
pub open spec fn hl_model(m: StateModel) -> u16 {
    (m.regs.h * 0x100 + m.regs.l) as u16
}

/// The state with the `h`,`l` pair holding the 16-bit value `v`.
pub open spec fn with_hl_model(m: StateModel, v: u16) -> StateModel {
    StateModel { regs: Registers { h: high8(v), l: low8(v), ..m.regs }, ..m }
}

/// Whether both stack bytes touched by a push from `m.sp` are writable.
pub open spec fn push_targets_ok(m: StateModel) -> bool {
    !rom_protected(wrap16(m.sp - 1)) && !rom_protected(wrap16(m.sp - 2))
}

/// The state after pushing `value`: low byte at `sp-1`, high byte at `sp-2`,
/// `sp` lowered by two. A rejected write stops the push where it stands.
pub open spec fn push_model(m: StateModel, value: u16) -> StateModel
    recommends
        m.wf(),
{
    let a1 = wrap16(m.sp - 1);
    if rom_protected(a1) {
        m
    } else {
        let m1 = write_model(m, a1, low8(value));
        let a2 = wrap16(m.sp - 2);
        if rom_protected(a2) {
            m1
        } else {
            StateModel { sp: a2, ..write_model(m1, a2, high8(value)) }
        }
    }
}

/// The value a pop reassembles: high byte at `sp`, low byte at `sp+1`.
pub open spec fn pop_value_model(m: StateModel) -> u16
    recommends
        m.wf(),
{
    (read_model(m, m.sp) * 0x100 + read_model(m, wrap16(m.sp + 1))) as u16
}

/// The state after a pop: `sp` raised by two, nothing else touched.
pub open spec fn pop_model(m: StateModel) -> StateModel {
    StateModel { sp: wrap16(m.sp + 2), ..m }
}

impl GameState {
    /// Constructor for a new state starting with the given `pc` and `sp`.
    pub fn initialize(pc: u16, sp: u16) -> (s: GameState)
        ensures
            s@ == fresh_model(pc, sp),
    {
        let s = GameState {
            pc: pc,
            sp: sp,
            ticks: 0,
            flags: Flags { zero: false, subtract: false, half_carry: false, carry: false },
            regs: Registers { a: 0, b: 0, c: 0, d: 0, e: 0, h: 0, l: 0 },
            memory: [0u8; 0x10000],
            hardware_io: [0u8; 0x80],
        };
        proof {
            assert(s@.mem =~= fresh_model(pc, sp).mem);
            assert(s@.io =~= fresh_model(pc, sp).io);
        }
        s
    }

    /// Copies a program image into memory, as the loader does at run start.
    /// This bypasses the run-time write protection: it models the cartridge
    /// contents being present before execution begins.
    pub fn load_image(&mut self, rom: &Vec<u8>)
        ensures
            final(self)@ == loaded_model(old(self)@, rom@),
    {
        let n: usize = if rom.len() < 0x10000 {
            rom.len()
        } else {
            0x10000
        };
        let mut i: usize = 0;
        while i < n
            invariant
                i <= n,
                n == if rom@.len() < 0x10000 { rom@.len() as int } else { 0x10000 },
                self.pc == old(self).pc,
                self.sp == old(self).sp,
                self.ticks == old(self).ticks,
                self.flags == old(self).flags,
                self.regs == old(self).regs,
                self@.io == old(self)@.io,
                forall|j: int| 0 <= j < i ==> self@.mem[j] == rom@[j],
                forall|j: int| i <= j < 0x10000 ==> self@.mem[j] == old(self)@.mem[j],
            decreases n - i,
        {
            self.memory[i] = rom[i];
            i = i + 1;
        }
        proof {
            assert(self@.mem =~= loaded_model(old(self)@, rom@).mem);
        }
    }

    /// Reads the byte at `index`; reads in the I/O window are served from the
    /// separate hardware I/O backing store.
    pub fn read_mem(&self, index: u16) -> (r: u8)
        ensures
            r == read_model(self@, index),
    {
        if 0xff00 <= index && index <= 0xff7f {
            self.hardware_io[(index - 0xff00) as usize]
        } else {
            self.memory[index as usize]
        }
    }

    /// Writes the byte at `index`, subject to the region rules: writes to the
    /// program banks fail with `ReadOnlyViolation` and change nothing, writes
    /// in the I/O window land in the hardware I/O backing store.
    pub fn write_mem(&mut self, index: u16, value: u8) -> (r: Result<(), FaultKind>)
        ensures
            final(self)@ == write_model(old(self)@, index, value),
            r == (if rom_protected(index) {
                Err::<(), FaultKind>(FaultKind::ReadOnlyViolation)
            } else {
                Ok::<(), FaultKind>(())
            }),
    {
        if 0x0100 <= index && index <= 0x3fff {
            Err(FaultKind::ReadOnlyViolation)
        } else if 0x4000 <= index && index <= 0x7fff {
            Err(FaultKind::ReadOnlyViolation)
        } else if 0xff00 <= index && index <= 0xff7f {
            self.hardware_io[(index - 0xff00) as usize] = value;
            Ok(())
        } else {
            self.memory[index as usize] = value;
            Ok(())
        }
    }

    /// Pushes a 16-bit value onto the descending stack: `sp` drops by two, the
    /// byte at the final `sp` holds the high byte, the byte above it the low
    /// byte. A write into a protected bank fails the push with
    /// `ReadOnlyViolation` and leaves `sp` untouched.
    pub fn push(&mut self, value: u16) -> (r: Result<(), FaultKind>)
        ensures
            final(self)@ == push_model(old(self)@, value),
            r == (if push_targets_ok(old(self)@) {
                Ok::<(), FaultKind>(())
            } else {
                Err::<(), FaultKind>(FaultKind::ReadOnlyViolation)
            }),
    {
        proof {
            assert(value & 0xff == value % 0x100) by (bit_vector);
            assert(value >> 8 == value / 0x100) by (bit_vector);
        }
        let mut sp = self.sp;
        sp = sp.wrapping_sub(1);
        match self.write_mem(sp, (value & 0xff) as u8) {
            Ok(()) => {},
            Err(k) => {
                return Err(k);
            },
        }
        sp = sp.wrapping_sub(1);
        match self.write_mem(sp, (value >> 8) as u8) {
            Ok(()) => {},
            Err(k) => {
                return Err(k);
            },
        }
        self.sp = sp;
        Ok(())
    }

    /// Pops a 16-bit value off the stack: high byte at `sp`, low byte at
    /// `sp+1`, `sp` raised by two. The exact inverse of `push` for any value
    /// pushed and not otherwise overwritten.
    pub fn pop(&mut self) -> (r: u16)
        ensures
            r == pop_value_model(old(self)@),
            final(self)@ == pop_model(old(self)@),
    {
        let hi = self.read_mem(self.sp);
        self.sp = self.sp.wrapping_add(1);
        let lo = self.read_mem(self.sp);
        self.sp = self.sp.wrapping_add(1);
        proof {
            assert(((hi as u16) << 8) | (lo as u16) == hi as u16 * 0x100 + lo as u16)
                by (bit_vector);
        }
        ((hi as u16) << 8) | (lo as u16)
    }

    /// Updates one of the seven 8-bit registers by name; `HL` is never a plain
    /// register, so it fails with `InvalidRegisterAccess`.
    pub fn set_register(&mut self, reg: &Register, val: u8) -> (r: Result<(), FaultKind>)
        ensures
            *reg is HL ==> r == Err::<(), FaultKind>(FaultKind::InvalidRegisterAccess)
                && final(self)@ == old(self)@,
            !(*reg is HL) ==> r == Ok::<(), FaultKind>(())
                && final(self)@ == with_reg_model(old(self)@, reg_code(*reg), val),
    {
        match reg {
            Register::A => {
                self.regs.a = val;
                Ok(())
            },
            Register::B => {
                self.regs.b = val;
                Ok(())
            },
            Register::C => {
                self.regs.c = val;
                Ok(())
            },
            Register::D => {
                self.regs.d = val;
                Ok(())
            },
            Register::E => {
                self.regs.e = val;
                Ok(())
            },
            Register::H => {
                self.regs.h = val;
                Ok(())
            },
            Register::L => {
                self.regs.l = val;
                Ok(())
            },
            Register::HL => Err(FaultKind::InvalidRegisterAccess),
        }
    }

    /// Looks up one of the seven 8-bit registers by name; `HL` is never a
    /// plain register, so it fails with `InvalidRegisterAccess`.
    pub fn get_register(&self, reg: &Register) -> (r: Result<u8, FaultKind>)
        ensures
            *reg is HL ==> r == Err::<u8, FaultKind>(FaultKind::InvalidRegisterAccess),
            !(*reg is HL) ==> r == Ok::<u8, FaultKind>(reg_value_model(self@, reg_code(*reg))),
    {
        match reg {
            Register::A => Ok(self.regs.a),
            Register::B => Ok(self.regs.b),
            Register::C => Ok(self.regs.c),
            Register::D => Ok(self.regs.d),
            Register::E => Ok(self.regs.e),
            Register::H => Ok(self.regs.h),
            Register::L => Ok(self.regs.l),
            Register::HL => Err(FaultKind::InvalidRegisterAccess),
        }
    }

    /// Reads the plain register named by canonical code `code` (never 6).
    pub(crate) fn reg_read_code(&self, code: u8) -> (r: u8)
        requires
            code < 8,
            code != 6,
        ensures
            r == reg_value_model(self@, code),
    {
        if code == 0 {
            self.regs.b
        } else if code == 1 {
            self.regs.c
        } else if code == 2 {
            self.regs.d
        } else if code == 3 {
            self.regs.e
        } else if code == 4 {
            self.regs.h
        } else if code == 5 {
            self.regs.l
        } else {
            self.regs.a
        }
    }

    /// Writes the plain register named by canonical code `code` (never 6).
    pub(crate) fn reg_write_code(&mut self, code: u8, val: u8)
        requires
            code < 8,
            code != 6,
        ensures
            final(self)@ == with_reg_model(old(self)@, code, val),
    {
        if code == 0 {
            self.regs.b = val;
        } else if code == 1 {
            self.regs.c = val;
        } else if code == 2 {
            self.regs.d = val;
        } else if code == 3 {
            self.regs.e = val;
        } else if code == 4 {
            self.regs.h = val;
        } else if code == 5 {
            self.regs.l = val;
        } else {
            self.regs.a = val;
        }
    }

    /// Sets the `h`,`l` pair from a 16-bit pointer value.
    pub fn set_hl(&mut self, val: u16)
        ensures
            final(self)@ == with_hl_model(old(self)@, val),
    {
        proof {
            assert(val >> 8 == val / 0x100) by (bit_vector);
            assert(val & 0xff == val % 0x100) by (bit_vector);
        }
        self.regs.h = (val >> 8) as u8;
        self.regs.l = (val & 0xff) as u8;
    }

    /// Composes the `h`,`l` pair into a 16-bit pointer value.
    pub fn get_hl(&self) -> (r: u16)
        ensures
            r == hl_model(self@),
    {
        let h = self.regs.h;
        let l = self.regs.l;
        proof {
            assert(((h as u16) << 8) | (l as u16) == h as u16 * 0x100 + l as u16) by (bit_vector);
        }
        ((h as u16) << 8) | (l as u16)
    }
}

/// The display name of a register.
pub fn reg_to_str(reg: &Register) -> (r: &'static str)
    ensures
        r@ == spec_reg_name(*reg),
{
    match reg {
        Register::A => "A",
        Register::B => "B",
        Register::C => "C",
        Register::D => "D",
        Register::E => "E",
        Register::H => "H",
        Register::L => "L",
        Register::HL => "HL",
    }
}

/// A write to a writable address is observed by a read at that address, and
/// at no other address.
pub proof fn lemma_read_after_write(m: StateModel, addr: u16, value: u8)
    requires
        m.wf(),
        !rom_protected(addr),
    ensures
        read_model(write_model(m, addr, value), addr) == value,
        forall|a: u16| a != addr ==> read_model(write_model(m, addr, value), a) == read_model(
            m,
            a,
        ),
{
}

/// Popping immediately after pushing any 16-bit value, with no other access
/// to the touched stack bytes in between, returns that value and restores
/// `sp` to its pre-push position.
pub proof fn lemma_push_pop_round_trip(m: StateModel, v: u16)
    requires
        m.wf(),
        push_targets_ok(m),
    ensures
        pop_value_model(push_model(m, v)) == v,
        pop_model(push_model(m, v)).sp == m.sp,
{
    let a1 = wrap16(m.sp - 1);
    let a2 = wrap16(m.sp - 2);
    let m1 = write_model(m, a1, low8(v));
    let m2 = write_model(m1, a2, high8(v));
    lemma_read_after_write(m, a1, low8(v));
    lemma_read_after_write(m1, a2, high8(v));
    assert(read_model(m2, a2) == high8(v));
    assert(read_model(m2, a1) == low8(v));
    assert(high8(v) * 0x100 + low8(v) == v) by {
        assert(v / 0x100 * 0x100 + v % 0x100 == v) by (bit_vector);
    };
}

/// A write to any address in the two program banks always fails and leaves
/// the whole state, memory included, unchanged.
pub proof fn lemma_rom_write_rejected(m: StateModel, addr: u16, value: u8)
    requires
        0x0100 <= addr <= 0x7fff,
    ensures
        write_model(m, addr, value) == m,
        rom_protected(addr),
{
}

/// A read from the I/O window reflects the last write to that same address
/// through the window, and never reflects the contents of the general memory
/// array: the window's backing store is the only thing such a read observes.
pub proof fn lemma_io_window_isolated(m: StateModel, addr: u16, value: u8)
    requires
        m.wf(),
        in_io_window(addr),
    ensures
        read_model(write_model(m, addr, value), addr) == value,
        write_model(m, addr, value).mem == m.mem,
        forall|other: Seq<u8>| #[trigger] other.len() == 0x10000 ==> read_model(
            (StateModel { mem: other, ..m }),
            addr,
        ) == read_model(m, addr),
{
    lemma_read_after_write(m, addr, value);
}

/// The display name of a register, as a sequence of characters.
pub open spec fn spec_reg_name(reg: Register) -> Seq<char> {
    match reg {
        Register::A => "A"@,
        Register::B => "B"@,
        Register::C => "C"@,
        Register::D => "D"@,
        Register::E => "E"@,
        Register::H => "H"@,
        Register::L => "L"@,
        Register::HL => "HL"@,
    }
}

} // verus!

