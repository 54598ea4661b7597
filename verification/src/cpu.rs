//! The instruction engine: operand resolution, the stack, the instruction
//! families and the fetch-decode-execute step.

use vstd::prelude::*;
use crate::bit_ops::bit_of;
use crate::errors::CpuError;
use crate::memory::Bus;
use crate::opcodes::{
    normal_table, prefixed_table, table_view, AddressingMode, Opcode, Register,
};
use crate::registers::{high_byte, low_byte, pair, Registers, C_BIT, Z_BIT};
use crate::test_data::State;

pub mod arithmetic;
pub mod bits;
pub mod jumps;
pub mod loads;
pub mod laws;
pub mod step;

verus! {

/// The direction of a rotate or shift.
#[derive(Clone, Copy, Debug, PartialEq, Eq, Structural)]
pub enum Direction {
    Left,
    Right,
}

/// The condition of a conditional jump, call or return.
#[derive(Clone, Copy, Debug, PartialEq, Eq, Structural)]
pub enum JumpCondition {
    /// The zero flag is set.
    Z,
    /// The zero flag is clear.
    NZ,
    /// The carry flag is set.
    C,
    /// The carry flag is clear.
    NC,
}

/// What a load does to HL after it has moved its byte.
#[derive(Clone, Copy, Debug, PartialEq, Eq, Structural)]
pub enum StoreLoadModifier {
    IncHL,
    DecHL,
}

/// What an operand resolves to.
#[derive(Clone, Copy, Debug, PartialEq, Eq, Structural)]
pub enum DataType {
    Address(u16),
    ValueU8(u8),
    ValueU16(u16),
    ValueI8(i8),
    NoData,
}

/// The text of the error that an instruction reports for an operand of
/// the wrong kind.
pub open spec fn operand_error_text() -> Seq<char> {
    "operand does not resolve to the kind of data that the instruction takes"@
}

/// Whether `e` is the error for an operand of the wrong kind.
pub open spec fn is_operand_error(e: CpuError) -> bool {
    e matches CpuError::OpcodeError(text) && text@ == operand_error_text()
}

/// The state of the processor: the register file, the stack pointer, the
/// program counter and the stored interrupt flag.
#[derive(Clone, Copy, Debug, PartialEq, Eq, Structural)]
pub struct CpuState {
    pub reg: Registers,
    pub sp: u16,
    pub pc: u16,
    pub ime: bool,
}

/// The address that lies `offset` after `base`, going round at both ends
/// of the address space.
pub open spec fn offset_address(base: u16, offset: i8) -> u16 {
    ((base + offset) % 0x10000) as u16
}

impl CpuState {
    /// The value of an 8-bit register; `None` for a register pair.
    pub open spec fn register_u8(self, register: Register) -> Option<u8> {
        match register {
            Register::A => Some(self.reg.a),
            Register::B => Some(self.reg.b),
            Register::C => Some(self.reg.c),
            Register::D => Some(self.reg.d),
            Register::E => Some(self.reg.e),
            Register::H => Some(self.reg.h),
            Register::L => Some(self.reg.l),
            _ => None,
        }
    }

    /// The value of a register pair or of the stack pointer; `None` for an
    /// 8-bit register.
    pub open spec fn register_u16(self, register: Register) -> Option<u16> {
        match register {
            Register::AF => Some(pair(self.reg.a, self.reg.f)),
            Register::BC => Some(pair(self.reg.b, self.reg.c)),
            Register::DE => Some(pair(self.reg.d, self.reg.e)),
            Register::HL => Some(pair(self.reg.h, self.reg.l)),
            Register::SP => Some(self.sp),
            _ => None,
        }
    }

    /// The value of HL.
    pub open spec fn hl(self) -> u16 {
        pair(self.reg.h, self.reg.l)
    }

    /// What an operand resolves to.
    ///
    /// A register gives its value, as a byte or as a word. A register
    /// address gives the address held in BC, DE or HL, and nothing for any
    /// other register. The immediate modes read the bytes after the opcode
    /// at `pc`. The two I/O modes give an address in the page at 0xFF00.
    pub open spec fn data<B: Bus>(self, mem: B::V, mode: AddressingMode) -> DataType {
        match mode {
            AddressingMode::ImmediateRegister(register) => match self.register_u8(register) {
                Some(value) => DataType::ValueU8(value),
                None => DataType::ValueU16(self.register_u16(register).unwrap()),
            },
            AddressingMode::AddressRegister(register) => match register {
                Register::BC => DataType::Address(pair(self.reg.b, self.reg.c)),
                Register::DE => DataType::Address(pair(self.reg.d, self.reg.e)),
                Register::HL => DataType::Address(pair(self.reg.h, self.reg.l)),
                _ => DataType::NoData,
            },
            AddressingMode::ImmediateU8 => DataType::ValueU8(B::peek(mem, self.pc.wrapping_add(1))),
            AddressingMode::AddressHRAM => DataType::Address(
                0xFF00u16 | (B::peek(mem, self.pc.wrapping_add(1)) as u16),
            ),
            AddressingMode::ImmediateI8 => DataType::ValueI8(
                B::peek(mem, self.pc.wrapping_add(1)) as i8,
            ),
            AddressingMode::ImmediateU16 => DataType::ValueU16(
                pair(B::peek(mem, self.pc.wrapping_add(2)), B::peek(mem, self.pc.wrapping_add(1))),
            ),
            AddressingMode::AddressU16 => DataType::Address(
                pair(B::peek(mem, self.pc.wrapping_add(2)), B::peek(mem, self.pc.wrapping_add(1))),
            ),
            AddressingMode::IoAddressOffset => DataType::Address(0xFF00u16 | (self.reg.c as u16)),
            AddressingMode::NoOperand => DataType::NoData,
        }
    }

    /// The byte that an operand stands for: the value itself, or the byte
    /// at the address that the operand resolves to.
    pub open spec fn operand_u8<B: Bus>(self, mem: B::V, mode: AddressingMode) -> Option<u8> {
        match self.data::<B>(mem, mode) {
            DataType::ValueU8(value) => Some(value),
            DataType::Address(addr) => Some(B::peek(mem, addr)),
            _ => None,
        }
    }

    /// The state with `value` in an 8-bit register; `None` for a pair.
    pub open spec fn with_r8(self, register: Register, value: u8) -> Option<CpuState> {
        match register {
            Register::A => Some(CpuState { reg: Registers { a: value, ..self.reg }, ..self }),
            Register::B => Some(CpuState { reg: Registers { b: value, ..self.reg }, ..self }),
            Register::C => Some(CpuState { reg: Registers { c: value, ..self.reg }, ..self }),
            Register::D => Some(CpuState { reg: Registers { d: value, ..self.reg }, ..self }),
            Register::E => Some(CpuState { reg: Registers { e: value, ..self.reg }, ..self }),
            Register::H => Some(CpuState { reg: Registers { h: value, ..self.reg }, ..self }),
            Register::L => Some(CpuState { reg: Registers { l: value, ..self.reg }, ..self }),
            _ => None,
        }
    }

    /// The state with `value` in BC, DE, HL or the stack pointer; `None`
    /// for any other register.
    pub open spec fn with_r16(self, register: Register, value: u16) -> Option<CpuState> {
        match register {
            Register::BC => Some(
                CpuState {
                    reg: Registers { b: high_byte(value), c: low_byte(value), ..self.reg },
                    ..self
                },
            ),
            Register::DE => Some(
                CpuState {
                    reg: Registers { d: high_byte(value), e: low_byte(value), ..self.reg },
                    ..self
                },
            ),
            Register::HL => Some(
                CpuState {
                    reg: Registers { h: high_byte(value), l: low_byte(value), ..self.reg },
                    ..self
                },
            ),
            Register::SP => Some(CpuState { sp: value, ..self }),
            _ => None,
        }
    }

    /// The state and the memory after `value` was stored where an operand
    /// points: in an 8-bit register, or in the memory cell whose address
    /// BC, DE or HL holds. `None` for any other operand.
    pub open spec fn stored_u8<B: Bus>(self, mem: B::V, mode: AddressingMode, value: u8) -> Option<
        (CpuState, B::V),
    > {
        match mode {
            AddressingMode::ImmediateRegister(register) => match self.with_r8(register, value) {
                Some(cpu) => Some((cpu, mem)),
                None => None,
            },
            AddressingMode::AddressRegister(register) => match self.data::<B>(mem, mode) {
                DataType::Address(addr) => Some((self, B::poke(mem, addr, value))),
                _ => None,
            },
            _ => None,
        }
    }

    /// The state with the flags forced to what is given for each, or left
    /// where `None` is given.
    pub open spec fn with_flags(
        self,
        z: Option<bool>,
        n: Option<bool>,
        h: Option<bool>,
        c: Option<bool>,
    ) -> CpuState {
        CpuState { reg: self.reg.with_flags(z, n, h, c), ..self }
    }

    /// The state with `value` in the accumulator.
    pub open spec fn with_a(self, value: u8) -> CpuState {
        CpuState { reg: Registers { a: value, ..self.reg }, ..self }
    }

    /// The carry flag as 0 or 1.
    pub open spec fn carry_bit(self) -> u8 {
        bit_of(self.reg.f, C_BIT)
    }

    /// The state and the memory after `value` was pushed: the stack
    /// pointer goes down by two, the high byte lies at the higher address.
    pub open spec fn pushed<B: Bus>(self, mem: B::V, value: u16) -> (CpuState, B::V) {
        let sp1 = self.sp.wrapping_sub(1);
        let sp2 = self.sp.wrapping_sub(2);
        (
            CpuState { sp: sp2, ..self },
            B::poke(B::poke(mem, sp1, high_byte(value)), sp2, low_byte(value)),
        )
    }

    /// The state after a pop and the word that it gives: the low byte
    /// from the stack pointer, the high byte from the address after it.
    pub open spec fn popped<B: Bus>(self, mem: B::V) -> (CpuState, u16) {
        (
            CpuState { sp: self.sp.wrapping_add(2), ..self },
            pair(B::peek(mem, self.sp.wrapping_add(1)), B::peek(mem, self.sp)),
        )
    }

    /// Whether a jump condition holds; no condition always holds.
    pub open spec fn condition_holds(self, condition: Option<JumpCondition>) -> bool {
        match condition {
            Some(JumpCondition::Z) => self.reg.flag(Z_BIT),
            Some(JumpCondition::NZ) => !self.reg.flag(Z_BIT),
            Some(JumpCondition::C) => self.reg.flag(C_BIT),
            Some(JumpCondition::NC) => !self.reg.flag(C_BIT),
            None => true,
        }
    }
}

/// What holds after an instruction family ran. Where `expected` gives a
/// state and a memory, the instruction succeeded and left those. Where it
/// gives none, an operand was of the wrong kind: the instruction reported
/// that and left the state and the memory as they were.
pub open spec fn effect<B: Bus>(
    expected: Option<(CpuState, B::V)>,
    old_cpu: CpuState,
    old_mem: B::V,
    result: Result<(), CpuError>,
    new_cpu: CpuState,
    new_mem: B::V,
) -> bool {
    match expected {
        Some((cpu, mem)) => result is Ok && new_cpu == cpu && new_mem == mem,
        None => {
            &&& result matches Err(e) && is_operand_error(e)
            &&& new_cpu == old_cpu
            &&& new_mem == old_mem
        },
    }
}

/// What holds after an instruction family ran that writes no memory:
/// as `effect`, for the state alone.
pub open spec fn effect_on_cpu(
    expected: Option<CpuState>,
    old_cpu: CpuState,
    result: Result<(), CpuError>,
    new_cpu: CpuState,
) -> bool {
    match expected {
        Some(cpu) => result is Ok && new_cpu == cpu,
        None => result matches Err(e) && is_operand_error(e) && new_cpu == old_cpu,
    }
}

/// The processor: its state and the two opcode tables that it decodes
/// with.
pub struct Cpu {
    reg: Registers,
    sp: u16,
    pc: u16,
    ime: bool,
    normal_opcodes: Vec<Option<Opcode>>,
    prefixed_opcodes: Vec<Option<Opcode>>,
}

impl View for Cpu {
    type V = CpuState;

    closed spec fn view(&self) -> CpuState {
        CpuState { reg: self.reg, sp: self.sp, pc: self.pc, ime: self.ime }
    }
}

/// The error for an operand of the wrong kind.
pub fn operand_error() -> (e: CpuError)
    ensures
        is_operand_error(e),
{
    CpuError::OpcodeError(
        "operand does not resolve to the kind of data that the instruction takes".to_string(),
    )
}

/// Forces each flag to what is given for it and leaves it where `None` is
/// given.
pub fn put_flags(
    reg: &mut Registers,
    z: Option<bool>,
    n: Option<bool>,
    h: Option<bool>,
    c: Option<bool>,
)
    ensures
        *final(reg) == old(reg).with_flags(z, n, h, c),
{
    match z {
        Some(true) => reg.set_z_flag(),
        Some(false) => reg.clear_z_flag(),
        None => (),
    }
    match n {
        Some(true) => reg.set_n_flag(),
        Some(false) => reg.clear_n_flag(),
        None => (),
    }
    match h {
        Some(true) => reg.set_h_flag(),
        Some(false) => reg.clear_h_flag(),
        None => (),
    }
    match c {
        Some(true) => reg.set_c_flag(),
        Some(false) => reg.clear_c_flag(),
        None => (),
    }
}

/// The address that lies `offset` after `base`.
pub fn add_offset(base: u16, offset: i8) -> (addr: u16)
    ensures
        addr == offset_address(base, offset),
{
    if offset >= 0 {
        base.wrapping_add(offset as u16)
    } else {
        base.wrapping_sub((-(offset as i16)) as u16)
    }
}

impl Cpu {
    #[verifier::type_invariant]
    spec fn inv(self) -> bool {
        &&& table_view(self.normal_opcodes@) == normal_table()
        &&& table_view(self.prefixed_opcodes@) == prefixed_table()
    }

    /// A processor with every register, the stack pointer and the program
    /// counter at 0.
    pub fn new() -> (cpu: Cpu)
        ensures
            cpu@ == (CpuState { reg: Registers::zeroed(), sp: 0, pc: 0, ime: false }),
    {
        Cpu {
            reg: Registers::new(),
            sp: 0,
            pc: 0,
            ime: false,
            normal_opcodes: Opcode::generate_normal_opcode_map(),
            prefixed_opcodes: Opcode::generate_prefixed_opcode_map(),
        }
    }

    pub fn get_registers(&self) -> (reg: Registers)
        ensures
            reg == self@.reg,
    {
        self.reg
    }

    /// Replaces the register file.
    pub fn load_registers(&mut self, reg: Registers)
        ensures
            final(self)@ == (CpuState { reg, ..old(self)@ }),
    {
        proof {
            use_type_invariant(&*self);
        }
        self.reg = reg;
    }

    /// Sets the registers, the stack pointer and the program counter from
    /// a recorded state. The stored interrupt flag stays.
    pub fn load_state(&mut self, state: &State)
        ensures
            final(self)@ == (CpuState { ime: old(self)@.ime, ..state@.cpu() }),
    {
        proof {
            use_type_invariant(&*self);
        }
        self.reg.a = state.a;
        self.reg.b = state.b;
        self.reg.c = state.c;
        self.reg.d = state.d;
        self.reg.e = state.e;
        self.reg.f = state.f;
        self.reg.h = state.h;
        self.reg.l = state.l;
        self.sp = state.sp;
        self.pc = state.pc;
    }

    /// Sets the whole state.
    pub fn set_state(&mut self, state: &CpuState)
        ensures
            final(self)@ == *state,
    {
        proof {
            use_type_invariant(&*self);
        }
        self.reg = state.reg;
        self.sp = state.sp;
        self.pc = state.pc;
        self.ime = state.ime;
    }

    /// The whole state.
    pub fn state(&self) -> (state: CpuState)
        ensures
            state == self@,
    {
        CpuState { reg: self.reg, sp: self.sp, pc: self.pc, ime: self.ime }
    }

    /// The registers A, B, C, D, E, F, H and L, the stack pointer and the
    /// program counter, in this order.
    pub fn get_state(&self) -> (state: (u8, u8, u8, u8, u8, u8, u8, u8, u16, u16))
        ensures
            state == (
                self@.reg.a,
                self@.reg.b,
                self@.reg.c,
                self@.reg.d,
                self@.reg.e,
                self@.reg.f,
                self@.reg.h,
                self@.reg.l,
                self@.sp,
                self@.pc,
            ),
    {
        (
            self.reg.a,
            self.reg.b,
            self.reg.c,
            self.reg.d,
            self.reg.e,
            self.reg.f,
            self.reg.h,
            self.reg.l,
            self.sp,
            self.pc,
        )
    }

    /// Resolves an operand.
    pub fn get_data<B: Bus>(&self, bus: &B, addressing_mode: &AddressingMode) -> (data: DataType)
        ensures
            data == self@.data::<B>(bus@, *addressing_mode),
    {
        match addressing_mode {
            AddressingMode::ImmediateRegister(register) => match register {
                Register::A => DataType::ValueU8(self.reg.a),
                Register::B => DataType::ValueU8(self.reg.b),
                Register::C => DataType::ValueU8(self.reg.c),
                Register::D => DataType::ValueU8(self.reg.d),
                Register::E => DataType::ValueU8(self.reg.e),
                Register::H => DataType::ValueU8(self.reg.h),
                Register::L => DataType::ValueU8(self.reg.l),
                Register::AF => DataType::ValueU16(self.reg.af()),
                Register::BC => DataType::ValueU16(self.reg.bc()),
                Register::DE => DataType::ValueU16(self.reg.de()),
                Register::HL => DataType::ValueU16(self.reg.hl()),
                Register::SP => DataType::ValueU16(self.sp),
            },
            AddressingMode::AddressRegister(register) => match register {
                Register::BC => DataType::Address(self.reg.bc()),
                Register::DE => DataType::Address(self.reg.de()),
                Register::HL => DataType::Address(self.reg.hl()),
                _ => DataType::NoData,
            },
            AddressingMode::ImmediateU8 => DataType::ValueU8(bus.read_u8(self.pc.wrapping_add(1))),
            AddressingMode::AddressHRAM => {
                let lo: u16 = bus.read_u8(self.pc.wrapping_add(1)) as u16;
                DataType::Address(0xFF00u16 | lo)
            },
            AddressingMode::ImmediateI8 => DataType::ValueI8(
                bus.read_u8(self.pc.wrapping_add(1)) as i8,
            ),
            AddressingMode::ImmediateU16 => DataType::ValueU16(
                bus.read_u16(self.pc.wrapping_add(1)),
            ),
            AddressingMode::AddressU16 => DataType::Address(bus.read_u16(self.pc.wrapping_add(1))),
            AddressingMode::IoAddressOffset => DataType::Address(0xFF00u16 | (self.reg.c as u16)),
            AddressingMode::NoOperand => DataType::NoData,
        }
    }

    /// The byte that an operand stands for, if it stands for one.
    pub fn read_operand<B: Bus>(&self, bus: &B, addressing_mode: &AddressingMode) -> (value: Option<
        u8,
    >)
        ensures
            value == self@.operand_u8::<B>(bus@, *addressing_mode),
    {
        match self.get_data(bus, addressing_mode) {
            DataType::ValueU8(value) => Some(value),
            DataType::Address(addr) => Some(bus.read_u8(addr)),
            _ => None,
        }
    }

    /// Stores a byte where an operand points: in an 8-bit register or in
    /// the memory cell whose address BC, DE or HL holds.
    pub fn store_operand<B: Bus>(
        &mut self,
        bus: &mut B,
        addressing_mode: &AddressingMode,
        value: u8,
    ) -> (result: Result<(), CpuError>)
        ensures
            effect::<B>(
                old(self)@.stored_u8::<B>(old(bus)@, *addressing_mode, value),
                old(self)@,
                old(bus)@,
                result,
                final(self)@,
                final(bus)@,
            ),
    {
        proof {
            use_type_invariant(&*self);
        }
        match addressing_mode {
            AddressingMode::ImmediateRegister(register) => match register {
                Register::A => self.reg.a = value,
                Register::B => self.reg.b = value,
                Register::C => self.reg.c = value,
                Register::D => self.reg.d = value,
                Register::E => self.reg.e = value,
                Register::H => self.reg.h = value,
                Register::L => self.reg.l = value,
                _ => {
                    return Err(operand_error());
                },
            },
            AddressingMode::AddressRegister(_) => match self.get_data(bus, addressing_mode) {
                DataType::Address(addr) => bus.write_u8(addr, value),
                _ => {
                    return Err(operand_error());
                },
            },
            _ => {
                return Err(operand_error());
            },
        }
        Ok(())
    }

    /// Pushes a word: the stack pointer goes down by one, the high byte
    /// is written there; it goes down again, the low byte is written.
    pub fn push_stack<B: Bus>(&mut self, bus: &mut B, value: u16)
        ensures
            (final(self)@, final(bus)@) == old(self)@.pushed::<B>(old(bus)@, value),
    {
        proof {
            use_type_invariant(&*self);
        }
        let hi = ((value & 0xFF00) >> 8) as u8;
        let lo = (value & 0xFF) as u8;
        self.sp = self.sp.wrapping_sub(1);
        bus.write_u8(self.sp, hi);
        self.sp = self.sp.wrapping_sub(1);
        bus.write_u8(self.sp, lo);
    }

    /// Pops a word: the low byte is read at the stack pointer, which goes
    /// up by one; the high byte is read there, and it goes up again.
    pub fn pop_stack<B: Bus>(&mut self, bus: &B) -> (value: u16)
        ensures
            (final(self)@, value) == old(self)@.popped::<B>(bus@),
    {
        proof {
            use_type_invariant(&*self);
        }
        let lo = bus.read_u8(self.sp);
        self.sp = self.sp.wrapping_add(1);
        let hi = bus.read_u8(self.sp);
        self.sp = self.sp.wrapping_add(1);
        ((hi as u16) << 8) | lo as u16
    }
}

} // verus!
