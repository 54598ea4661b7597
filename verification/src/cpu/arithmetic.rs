//! Arithmetic and logic on the accumulator, increments and decrements,
//! 16-bit additions and the adjustments of the accumulator and the carry.

use vstd::prelude::*;
use crate::cpu::{
    add_offset, effect, effect_on_cpu, offset_address, operand_error, put_flags, Cpu, CpuState,
    DataType,
};
use crate::errors::CpuError;
use crate::memory::Bus;
use crate::opcodes::{AddressingMode, Register};
use crate::registers::{low_byte, C_BIT, H_BIT, N_BIT};

verus! {

/// The sum of two bytes modulo 256, whether the low nibbles carry into
/// bit 4, and whether the sum passes 255.
pub open spec fn carry_add(lhs: u8, rhs: u8) -> (u8, bool, bool) {
    (
        lhs.wrapping_add(rhs),
        (((lhs & 0xF) + (rhs & 0xF)) as u8 & 0x10) == 0x10,
        lhs + rhs > 0xFF,
    )
}

/// The difference of two bytes modulo 256, whether the low nibble of the
/// first is below that of the second, and whether the first byte is
/// below the second.
pub open spec fn borrow_sub(lhs: u8, rhs: u8) -> (u8, bool, bool) {
    (lhs.wrapping_sub(rhs), (lhs & 0xF) < (rhs & 0xF), lhs < rhs)
}

/// Whether the low twelve bits of two words carry into bit 12.
pub open spec fn half_carry_u16(lhs: u16, rhs: u16) -> bool {
    (((lhs & 0xFFF) + (rhs & 0xFFF)) as u16 & 0x1000) == 0x1000
}

/// Whether an operand is an 8-bit register or the memory cell at HL.
pub open spec fn is_r8_or_hl(mode: AddressingMode) -> bool {
    match mode {
        AddressingMode::ImmediateRegister(register) => !(register is AF || register is BC
            || register is DE || register is HL || register is SP),
        AddressingMode::AddressRegister(register) => register is HL,
        _ => false,
    }
}

/// The accumulator after the decimal adjustment, and the carry that the
/// adjustment leaves. After an addition (`n` clear) 0x60 is added where
/// the carry is set or the value is above 0x99, and then the carry is
/// set; 0x06 is added where the half-carry is set or the low nibble is
/// above 9. After a subtraction 0x60 is taken off where the carry is set
/// and 0x06 where the half-carry is set, and the carry stays.
pub open spec fn decimal_adjusted(a: u8, n: bool, h: bool, c: bool) -> (u8, bool) {
    if !n {
        let high = c || a > 0x99;
        let a1 = if high { a.wrapping_add(0x60) } else { a };
        let a2 = if h || (a1 & 0x0f) > 0x09 { a1.wrapping_add(0x06) } else { a1 };
        (a2, c || high)
    } else {
        let a1 = if c { a.wrapping_sub(0x60) } else { a };
        let a2 = if h { a1.wrapping_sub(0x06) } else { a1 };
        (a2, c)
    }
}

impl CpuState {
    /// The state and the memory after `value` was stored where `mode`
    /// points and the flags were set as given.
    pub open spec fn stored_with_flags<B: Bus>(
        self,
        mem: B::V,
        mode: AddressingMode,
        value: u8,
        z: Option<bool>,
        n: Option<bool>,
        h: Option<bool>,
        c: Option<bool>,
    ) -> Option<(CpuState, B::V)> {
        match self.stored_u8::<B>(mem, mode, value) {
            Some((cpu, mem)) => Some((cpu.with_flags(z, n, h, c), mem)),
            None => None,
        }
    }

    /// INC on an 8-bit register or on the cell at HL: the value goes up by
    /// one modulo 256; Z says whether it is 0, N is cleared, H says
    /// whether the low nibble carried, C stays.
    pub open spec fn incremented_u8<B: Bus>(self, mem: B::V, mode: AddressingMode) -> Option<
        (CpuState, B::V),
    > {
        match self.operand_u8::<B>(mem, mode) {
            Some(value) if is_r8_or_hl(mode) => {
                let (sum, half_carry, _) = carry_add(value, 1);
                self.stored_with_flags::<B>(
                    mem,
                    mode,
                    sum,
                    Some(sum == 0),
                    Some(false),
                    Some(half_carry),
                    None,
                )
            },
            _ => None,
        }
    }

    /// DEC on an 8-bit register or on the cell at HL: the value goes down
    /// by one modulo 256; Z says whether it is 0, N is set, H says
    /// whether the low nibble borrowed, C stays.
    pub open spec fn decremented_u8<B: Bus>(self, mem: B::V, mode: AddressingMode) -> Option<
        (CpuState, B::V),
    > {
        match self.operand_u8::<B>(mem, mode) {
            Some(value) if is_r8_or_hl(mode) => {
                let (diff, half_borrow, _) = borrow_sub(value, 1);
                self.stored_with_flags::<B>(
                    mem,
                    mode,
                    diff,
                    Some(diff == 0),
                    Some(true),
                    Some(half_borrow),
                    None,
                )
            },
            _ => None,
        }
    }

    /// INC on BC, DE, HL or SP: the value goes up by one modulo 65536, no
    /// flag changes.
    pub open spec fn incremented_u16(self, mode: AddressingMode) -> Option<CpuState> {
        match mode {
            AddressingMode::ImmediateRegister(register) => match self.register_u16(register) {
                Some(value) => self.with_r16(register, value.wrapping_add(1)),
                None => None,
            },
            _ => None,
        }
    }

    /// DEC on BC, DE, HL or SP: the value goes down by one modulo 65536,
    /// no flag changes.
    pub open spec fn decremented_u16(self, mode: AddressingMode) -> Option<CpuState> {
        match mode {
            AddressingMode::ImmediateRegister(register) => match self.register_u16(register) {
                Some(value) => self.with_r16(register, value.wrapping_sub(1)),
                None => None,
            },
            _ => None,
        }
    }

    /// ADD A,x: the sum goes to A; Z, H and C come from the addition, N
    /// is cleared.
    pub open spec fn added_to_a<B: Bus>(self, mem: B::V, rhs: AddressingMode) -> Option<CpuState> {
        match self.operand_u8::<B>(mem, rhs) {
            Some(value) => {
                let (sum, half_carry, full_carry) = carry_add(self.reg.a, value);
                Some(
                    self.with_flags(
                        Some(sum == 0),
                        Some(false),
                        Some(half_carry),
                        Some(full_carry),
                    ).with_a(sum),
                )
            },
            None => None,
        }
    }

    /// ADC A,x: the operand and then the carry flag are added to A; H and
    /// C say whether either addition carried, N is cleared.
    pub open spec fn added_with_carry<B: Bus>(self, mem: B::V, rhs: AddressingMode) -> Option<
        CpuState,
    > {
        match self.operand_u8::<B>(mem, rhs) {
            Some(value) => {
                let (sum1, half1, full1) = carry_add(self.reg.a, value);
                let (sum, half2, full2) = carry_add(sum1, self.carry_bit());
                Some(
                    self.with_flags(
                        Some(sum == 0),
                        Some(false),
                        Some(half1 || half2),
                        Some(full1 || full2),
                    ).with_a(sum),
                )
            },
            None => None,
        }
    }

    /// SUB A,x where `store_result` holds, CP A,x where it does not: Z, H
    /// and C come from the subtraction, N is set; the difference goes to
    /// A only for SUB.
    pub open spec fn subtracted_from_a<B: Bus>(
        self,
        mem: B::V,
        rhs: AddressingMode,
        store_result: bool,
    ) -> Option<CpuState> {
        match self.operand_u8::<B>(mem, rhs) {
            Some(value) => {
                let (diff, half_borrow, borrow) = borrow_sub(self.reg.a, value);
                let cpu = self.with_flags(
                    Some(diff == 0),
                    Some(true),
                    Some(half_borrow),
                    Some(borrow),
                );
                Some(if store_result { cpu.with_a(diff) } else { cpu })
            },
            None => None,
        }
    }

    /// SBC A,x: the operand and then the carry flag are taken off A; H
    /// and C say whether either subtraction borrowed, N is set.
    pub open spec fn subtracted_with_carry<B: Bus>(self, mem: B::V, rhs: AddressingMode) -> Option<
        CpuState,
    > {
        match self.operand_u8::<B>(mem, rhs) {
            Some(value) => {
                let (diff1, half1, borrow1) = borrow_sub(self.reg.a, value);
                let (diff, half2, borrow2) = borrow_sub(diff1, self.carry_bit());
                Some(
                    self.with_flags(
                        Some(diff == 0),
                        Some(true),
                        Some(half1 || half2),
                        Some(borrow1 || borrow2),
                    ).with_a(diff),
                )
            },
            None => None,
        }
    }

    /// AND A,x: Z from the result, H set, N and C cleared.
    pub open spec fn anded_with_a<B: Bus>(self, mem: B::V, rhs: AddressingMode) -> Option<
        CpuState,
    > {
        match self.operand_u8::<B>(mem, rhs) {
            Some(value) => {
                let res = self.reg.a & value;
                Some(
                    self.with_flags(Some(res == 0), Some(false), Some(true), Some(false)).with_a(
                        res,
                    ),
                )
            },
            None => None,
        }
    }

    /// XOR A,x: Z from the result, N, H and C cleared.
    pub open spec fn xored_with_a<B: Bus>(self, mem: B::V, rhs: AddressingMode) -> Option<
        CpuState,
    > {
        match self.operand_u8::<B>(mem, rhs) {
            Some(value) => {
                let res = self.reg.a ^ value;
                Some(
                    self.with_flags(Some(res == 0), Some(false), Some(false), Some(false)).with_a(
                        res,
                    ),
                )
            },
            None => None,
        }
    }

    /// OR A,x: Z from the result, N, H and C cleared.
    pub open spec fn ored_with_a<B: Bus>(self, mem: B::V, rhs: AddressingMode) -> Option<CpuState> {
        match self.operand_u8::<B>(mem, rhs) {
            Some(value) => {
                let res = self.reg.a | value;
                Some(
                    self.with_flags(Some(res == 0), Some(false), Some(false), Some(false)).with_a(
                        res,
                    ),
                )
            },
            None => None,
        }
    }

    /// ADD HL,r16: the sum modulo 65536 goes to HL; N is cleared, H says
    /// whether bit 11 carried, C whether the sum passed 65535; Z stays.
    pub open spec fn added_to_hl<B: Bus>(self, mem: B::V, rhs: AddressingMode) -> Option<CpuState> {
        match self.data::<B>(mem, rhs) {
            DataType::ValueU16(value) => {
                let hl = self.hl();
                self.with_flags(
                    None,
                    Some(false),
                    Some(half_carry_u16(hl, value)),
                    Some(hl + value > 0xFFFF),
                ).with_r16(Register::HL, hl.wrapping_add(value))
            },
            _ => None,
        }
    }

    /// The flags after a signed offset was added to the stack pointer: Z
    /// and N cleared, H and C from adding the offset's byte to the low
    /// byte of the stack pointer.
    pub open spec fn with_offset_flags(self, offset: i8) -> CpuState {
        let (_, half_carry, full_carry) = carry_add(low_byte(self.sp), offset as u8);
        self.with_flags(Some(false), Some(false), Some(half_carry), Some(full_carry))
    }

    /// ADD SP,e8: the stack pointer moves by the signed offset.
    pub open spec fn added_to_sp<B: Bus>(self, mem: B::V, rhs: AddressingMode) -> Option<CpuState> {
        match self.data::<B>(mem, rhs) {
            DataType::ValueI8(offset) => Some(
                CpuState { sp: offset_address(self.sp, offset), ..self.with_offset_flags(offset) },
            ),
            _ => None,
        }
    }

    /// LD HL,SP+e8: HL becomes the stack pointer moved by the signed
    /// offset; the stack pointer stays.
    pub open spec fn loaded_hl_from_sp<B: Bus>(self, mem: B::V, rhs: AddressingMode) -> Option<
        CpuState,
    > {
        match self.data::<B>(mem, rhs) {
            DataType::ValueI8(offset) => self.with_offset_flags(offset).with_r16(
                Register::HL,
                offset_address(self.sp, offset),
            ),
            _ => None,
        }
    }

    /// DAA: the accumulator is adjusted to packed decimal; Z says whether
    /// it is 0, H is cleared, C is what the adjustment leaves, N stays.
    pub open spec fn decimal_adjusted(self) -> CpuState {
        let (a, carry) = decimal_adjusted(
            self.reg.a,
            self.reg.flag(N_BIT),
            self.reg.flag(H_BIT),
            self.reg.flag(C_BIT),
        );
        self.with_a(a).with_flags(Some(a == 0), None, Some(false), Some(carry))
    }

    /// CPL: every bit of the accumulator is inverted; N and H are set.
    pub open spec fn complemented(self) -> CpuState {
        self.with_a(!self.reg.a).with_flags(None, Some(true), Some(true), None)
    }

    /// SCF: C is set, N and H are cleared.
    pub open spec fn carry_set(self) -> CpuState {
        self.with_flags(None, Some(false), Some(false), Some(true))
    }

    /// CCF: C is inverted, N and H are cleared.
    pub open spec fn carry_flipped(self) -> CpuState {
        self.with_flags(None, Some(false), Some(false), Some(!self.reg.flag(C_BIT)))
    }
}

/// Whether an operand is an 8-bit register or the memory cell at HL.
pub fn is_r8_or_hl_mode(addressing_mode: &AddressingMode) -> (ok: bool)
    ensures
        ok == is_r8_or_hl(*addressing_mode),
{
    match addressing_mode {
        AddressingMode::ImmediateRegister(register) => match register {
            Register::AF | Register::BC | Register::DE | Register::HL | Register::SP => false,
            _ => true,
        },
        AddressingMode::AddressRegister(Register::HL) => true,
        _ => false,
    }
}

impl Cpu {
    pub fn carry_track_add_u8(lhs: u8, rhs: u8) -> (sum: (u8, bool, bool))
        ensures
            sum == carry_add(lhs, rhs),
    {
        assert((lhs & 0xF) <= 0xF && (rhs & 0xF) <= 0xF) by (bit_vector);
        let sum = lhs.wrapping_add(rhs);
        let full_carry = (lhs as u16 + rhs as u16) > 0xFF;
        let half_carry = (((lhs & 0xF) + (rhs & 0xF)) & 0x10) == 0x10;
        (sum, half_carry, full_carry)
    }

    pub fn carry_track_sub_u8(lhs: u8, rhs: u8) -> (diff: (u8, bool, bool))
        ensures
            diff == borrow_sub(lhs, rhs),
    {
        let diff = lhs.wrapping_sub(rhs);
        let full_borrow = lhs < rhs;
        let half_borrow = (lhs & 0xF) < (rhs & 0xF);
        (diff, half_borrow, full_borrow)
    }

    /// Stores a byte where an operand points and sets the flags.
    pub fn store_with_flags<B: Bus>(
        &mut self,
        bus: &mut B,
        addressing_mode: &AddressingMode,
        value: u8,
        z: Option<bool>,
        n: Option<bool>,
        h: Option<bool>,
        c: Option<bool>,
    ) -> (result: Result<(), CpuError>)
        ensures
            effect::<B>(
                old(self)@.stored_with_flags::<B>(old(bus)@, *addressing_mode, value, z, n, h, c),
                old(self)@,
                old(bus)@,
                result,
                final(self)@,
                final(bus)@,
            ),
    {
        self.store_operand(bus, addressing_mode, value)?;
        proof {
            use_type_invariant(&*self);
        }
        let mut reg = self.reg;
        put_flags(&mut reg, z, n, h, c);
        self.reg = reg;
        Ok(())
    }

    /// Sets the flags and the accumulator.
    fn set_flags_and_a(
        &mut self,
        a: u8,
        z: Option<bool>,
        n: Option<bool>,
        h: Option<bool>,
        c: Option<bool>,
    )
        ensures
            final(self)@ == old(self)@.with_flags(z, n, h, c).with_a(a),
    {
        proof {
            use_type_invariant(&*self);
        }
        let mut reg = self.reg;
        put_flags(&mut reg, z, n, h, c);
        reg.a = a;
        self.reg = reg;
    }

    pub fn increment_u8<B: Bus>(&mut self, bus: &mut B, addressing_mode: &AddressingMode) -> (result:
        Result<(), CpuError>)
        ensures
            effect::<B>(
                old(self)@.incremented_u8::<B>(old(bus)@, *addressing_mode),
                old(self)@,
                old(bus)@,
                result,
                final(self)@,
                final(bus)@,
            ),
    {
        if !is_r8_or_hl_mode(addressing_mode) {
            return Err(operand_error());
        }
        let value = match self.read_operand(bus, addressing_mode) {
            Some(value) => value,
            None => {
                return Err(operand_error());
            },
        };
        let (sum, half_carry, _) = Self::carry_track_add_u8(value, 1);
        self.store_with_flags(
            bus,
            addressing_mode,
            sum,
            Some(sum == 0),
            Some(false),
            Some(half_carry),
            None,
        )
    }

    pub fn decrement_u8<B: Bus>(&mut self, bus: &mut B, addressing_mode: &AddressingMode) -> (result:
        Result<(), CpuError>)
        ensures
            effect::<B>(
                old(self)@.decremented_u8::<B>(old(bus)@, *addressing_mode),
                old(self)@,
                old(bus)@,
                result,
                final(self)@,
                final(bus)@,
            ),
    {
        if !is_r8_or_hl_mode(addressing_mode) {
            return Err(operand_error());
        }
        let value = match self.read_operand(bus, addressing_mode) {
            Some(value) => value,
            None => {
                return Err(operand_error());
            },
        };
        let (diff, half_borrow, _) = Self::carry_track_sub_u8(value, 1);
        self.store_with_flags(
            bus,
            addressing_mode,
            diff,
            Some(diff == 0),
            Some(true),
            Some(half_borrow),
            None,
        )
    }

    /// Puts a word into BC, DE, HL or the stack pointer.
    pub fn store_u16(&mut self, register: &Register, value: u16) -> (stored: bool)
        ensures
            match old(self)@.with_r16(*register, value) {
                Some(cpu) => stored && final(self)@ == cpu,
                None => !stored && final(self)@ == old(self)@,
            },
    {
        proof {
            use_type_invariant(&*self);
        }
        let mut reg = self.reg;
        match register {
            Register::BC => reg.set_bc(value),
            Register::DE => reg.set_de(value),
            Register::HL => reg.set_hl(value),
            Register::SP => {
                self.sp = value;
            },
            _ => {
                return false;
            },
        }
        self.reg = reg;
        true
    }

    pub fn increment_u16<B: Bus>(&mut self, bus: &B, lhs: &AddressingMode) -> (result: Result<
        (),
        CpuError,
    >)
        ensures
            effect_on_cpu(old(self)@.incremented_u16(*lhs), old(self)@, result, final(self)@),
    {
        match lhs {
            AddressingMode::ImmediateRegister(register) => match self.get_data(bus, lhs) {
                DataType::ValueU16(value) => {
                    if self.store_u16(register, value.wrapping_add(1)) {
                        return Ok(());
                    }
                },
                _ => (),
            },
            _ => (),
        }
        Err(operand_error())
    }

    pub fn decrement_u16<B: Bus>(&mut self, bus: &B, addressing_mode: &AddressingMode) -> (result:
        Result<(), CpuError>)
        ensures
            effect_on_cpu(
                old(self)@.decremented_u16(*addressing_mode),
                old(self)@,
                result,
                final(self)@,
            ),
    {
        match addressing_mode {
            AddressingMode::ImmediateRegister(register) => match self.get_data(
                bus,
                addressing_mode,
            ) {
                DataType::ValueU16(value) => {
                    if self.store_u16(register, value.wrapping_sub(1)) {
                        return Ok(());
                    }
                },
                _ => (),
            },
            _ => (),
        }
        Err(operand_error())
    }

    pub fn add_a_u8<B: Bus>(&mut self, bus: &B, rhs: &AddressingMode) -> (result: Result<
        (),
        CpuError,
    >)
        ensures
            effect_on_cpu(old(self)@.added_to_a::<B>(bus@, *rhs), old(self)@, result, final(self)@),
    {
        let value = match self.read_operand(bus, rhs) {
            Some(value) => value,
            None => {
                return Err(operand_error());
            },
        };
        let (sum, half_carry, full_carry) = Self::carry_track_add_u8(self.reg.a, value);
        self.set_flags_and_a(
            sum,
            Some(sum == 0),
            Some(false),
            Some(half_carry),
            Some(full_carry),
        );
        Ok(())
    }

    pub fn adc<B: Bus>(&mut self, bus: &B, rhs: &AddressingMode) -> (result: Result<(), CpuError>)
        ensures
            effect_on_cpu(
                old(self)@.added_with_carry::<B>(bus@, *rhs),
                old(self)@,
                result,
                final(self)@,
            ),
    {
        let value = match self.read_operand(bus, rhs) {
            Some(value) => value,
            None => {
                return Err(operand_error());
            },
        };
        let (sum, half_carry_1, carry_1) = Self::carry_track_add_u8(self.reg.a, value);
        let (sum, half_carry_2, carry_2) = Self::carry_track_add_u8(sum, self.reg.get_c_flag());
        self.set_flags_and_a(
            sum,
            Some(sum == 0),
            Some(false),
            Some(half_carry_1 || half_carry_2),
            Some(carry_1 || carry_2),
        );
        Ok(())
    }

    pub fn sub_a<B: Bus>(&mut self, bus: &B, rhs: &AddressingMode, store_result: bool) -> (result:
        Result<(), CpuError>)
        ensures
            effect_on_cpu(
                old(self)@.subtracted_from_a::<B>(bus@, *rhs, store_result),
                old(self)@,
                result,
                final(self)@,
            ),
    {
        let value = match self.read_operand(bus, rhs) {
            Some(value) => value,
            None => {
                return Err(operand_error());
            },
        };
        let (diff, half_borrow, borrow) = Self::carry_track_sub_u8(self.reg.a, value);
        let a = if store_result { diff } else { self.reg.a };
        self.set_flags_and_a(a, Some(diff == 0), Some(true), Some(half_borrow), Some(borrow));
        Ok(())
    }

    pub fn sbc<B: Bus>(&mut self, bus: &B, rhs: &AddressingMode) -> (result: Result<(), CpuError>)
        ensures
            effect_on_cpu(
                old(self)@.subtracted_with_carry::<B>(bus@, *rhs),
                old(self)@,
                result,
                final(self)@,
            ),
    {
        let value = match self.read_operand(bus, rhs) {
            Some(value) => value,
            None => {
                return Err(operand_error());
            },
        };
        let (diff, half_borrow_1, borrow_1) = Self::carry_track_sub_u8(self.reg.a, value);
        let (diff, half_borrow_2, borrow_2) = Self::carry_track_sub_u8(diff, self.reg.get_c_flag());
        self.set_flags_and_a(
            diff,
            Some(diff == 0),
            Some(true),
            Some(half_borrow_1 || half_borrow_2),
            Some(borrow_1 || borrow_2),
        );
        Ok(())
    }

    pub fn and<B: Bus>(&mut self, bus: &B, rhs: &AddressingMode) -> (result: Result<(), CpuError>)
        ensures
            effect_on_cpu(
                old(self)@.anded_with_a::<B>(bus@, *rhs),
                old(self)@,
                result,
                final(self)@,
            ),
    {
        let value = match self.read_operand(bus, rhs) {
            Some(value) => value,
            None => {
                return Err(operand_error());
            },
        };
        let res = self.reg.a & value;
        self.set_flags_and_a(res, Some(res == 0), Some(false), Some(true), Some(false));
        Ok(())
    }

    pub fn xor_with_a<B: Bus>(&mut self, bus: &B, rhs: &AddressingMode) -> (result: Result<
        (),
        CpuError,
    >)
        ensures
            effect_on_cpu(
                old(self)@.xored_with_a::<B>(bus@, *rhs),
                old(self)@,
                result,
                final(self)@,
            ),
    {
        let value = match self.read_operand(bus, rhs) {
            Some(value) => value,
            None => {
                return Err(operand_error());
            },
        };
        let res = self.reg.a ^ value;
        self.set_flags_and_a(res, Some(res == 0), Some(false), Some(false), Some(false));
        Ok(())
    }

    pub fn or_with_a<B: Bus>(&mut self, bus: &B, rhs: &AddressingMode) -> (result: Result<
        (),
        CpuError,
    >)
        ensures
            effect_on_cpu(
                old(self)@.ored_with_a::<B>(bus@, *rhs),
                old(self)@,
                result,
                final(self)@,
            ),
    {
        let value = match self.read_operand(bus, rhs) {
            Some(value) => value,
            None => {
                return Err(operand_error());
            },
        };
        let res = self.reg.a | value;
        self.set_flags_and_a(res, Some(res == 0), Some(false), Some(false), Some(false));
        Ok(())
    }

    pub fn add_hl_u16<B: Bus>(&mut self, bus: &B, rhs: &AddressingMode) -> (result: Result<
        (),
        CpuError,
    >)
        ensures
            effect_on_cpu(old(self)@.added_to_hl::<B>(bus@, *rhs), old(self)@, result, final(self)@),
    {
        proof {
            use_type_invariant(&*self);
        }
        let value = match self.get_data(bus, rhs) {
            DataType::ValueU16(value) => value,
            _ => {
                return Err(operand_error());
            },
        };
        let hl = self.reg.hl();
        assert((hl & 0xFFF) <= 0xFFF && (value & 0xFFF) <= 0xFFF) by (bit_vector);
        let res = hl.wrapping_add(value);
        let carry = (hl as u32 + value as u32) > 0xFFFF;
        let half_carry = (((hl & 0xFFF) + (value & 0xFFF)) & 0x1000) == 0x1000;
        let mut reg = self.reg;
        put_flags(&mut reg, None, Some(false), Some(half_carry), Some(carry));
        reg.set_hl(res);
        self.reg = reg;
        Ok(())
    }

    /// Sets the flags for a signed offset added to the stack pointer.
    fn set_offset_flags(&mut self, offset: i8)
        ensures
            final(self)@ == old(self)@.with_offset_flags(offset),
    {
        proof {
            use_type_invariant(&*self);
        }
        let (_, half_carry, full_carry) = Self::carry_track_add_u8(
            (self.sp & 0xFF) as u8,
            offset as u8,
        );
        let mut reg = self.reg;
        put_flags(&mut reg, Some(false), Some(false), Some(half_carry), Some(full_carry));
        self.reg = reg;
    }

    pub fn add_sp_e8<B: Bus>(&mut self, bus: &B, rhs: &AddressingMode) -> (result: Result<
        (),
        CpuError,
    >)
        ensures
            effect_on_cpu(old(self)@.added_to_sp::<B>(bus@, *rhs), old(self)@, result, final(self)@),
    {
        let offset = match self.get_data(bus, rhs) {
            DataType::ValueI8(offset) => offset,
            _ => {
                return Err(operand_error());
            },
        };
        self.set_offset_flags(offset);
        proof {
            use_type_invariant(&*self);
        }
        self.sp = add_offset(self.sp, offset);
        Ok(())
    }

    pub fn ld_hl_sp_e8<B: Bus>(&mut self, bus: &B, rhs: &AddressingMode) -> (result: Result<
        (),
        CpuError,
    >)
        ensures
            effect_on_cpu(
                old(self)@.loaded_hl_from_sp::<B>(bus@, *rhs),
                old(self)@,
                result,
                final(self)@,
            ),
    {
        let offset = match self.get_data(bus, rhs) {
            DataType::ValueI8(offset) => offset,
            _ => {
                return Err(operand_error());
            },
        };
        self.set_offset_flags(offset);
        proof {
            use_type_invariant(&*self);
        }
        let mut reg = self.reg;
        reg.set_hl(add_offset(self.sp, offset));
        self.reg = reg;
        Ok(())
    }

    pub fn daa(&mut self)
        ensures
            final(self)@ == old(self)@.decimal_adjusted(),
    {
        proof {
            use_type_invariant(&*self);
        }
        let mut a = self.reg.a;
        let mut carry = self.reg.get_c_flag() == 1;
        if self.reg.get_n_flag() == 0 {
            if carry || a > 0x99 {
                a = a.wrapping_add(0x60);
                carry = true;
            }
            if self.reg.get_h_flag() == 1 || (a & 0x0f) > 0x09 {
                a = a.wrapping_add(0x6);
            }
        } else {
            if carry {
                a = a.wrapping_sub(0x60);
            }
            if self.reg.get_h_flag() == 1 {
                a = a.wrapping_sub(0x6);
            }
        }
        let mut reg = self.reg;
        reg.a = a;
        put_flags(&mut reg, Some(a == 0), None, Some(false), Some(carry));
        self.reg = reg;
    }

    pub fn cpl(&mut self)
        ensures
            final(self)@ == old(self)@.complemented(),
    {
        proof {
            use_type_invariant(&*self);
        }
        let mut reg = self.reg;
        reg.a = !reg.a;
        put_flags(&mut reg, None, Some(true), Some(true), None);
        self.reg = reg;
    }

    pub fn scf(&mut self)
        ensures
            final(self)@ == old(self)@.carry_set(),
    {
        proof {
            use_type_invariant(&*self);
        }
        let mut reg = self.reg;
        put_flags(&mut reg, None, Some(false), Some(false), Some(true));
        self.reg = reg;
    }

    pub fn ccf(&mut self)
        ensures
            final(self)@ == old(self)@.carry_flipped(),
    {
        proof {
            use_type_invariant(&*self);
        }
        let carry = self.reg.get_c_flag() == 1;
        let mut reg = self.reg;
        put_flags(&mut reg, None, Some(false), Some(false), Some(!carry));
        self.reg = reg;
    }
}

} // verus!
