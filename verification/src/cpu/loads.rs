//! Loads and stores.

use vstd::prelude::*;
use crate::cpu::{effect, operand_error, Cpu, CpuState, DataType, StoreLoadModifier};
use crate::errors::CpuError;
use crate::memory::Bus;
use crate::opcodes::{AddressingMode, Register};
use crate::registers::{high_byte, low_byte};

verus! {

impl CpuState {
    /// The state after HL was moved as a load's modifier asks: up by one,
    /// down by one (both modulo 65536), or not at all.
    pub open spec fn with_hl_modified(self, modifier: Option<StoreLoadModifier>) -> CpuState {
        match modifier {
            Some(StoreLoadModifier::IncHL) => self.with_r16(
                Register::HL,
                self.hl().wrapping_add(1),
            ).unwrap(),
            Some(StoreLoadModifier::DecHL) => self.with_r16(
                Register::HL,
                self.hl().wrapping_sub(1),
            ).unwrap(),
            None => self,
        }
    }

    /// What a load moves, before any change to HL.
    ///
    /// Into a register go a byte, the byte at an address, or, for BC,
    /// DE, HL and SP, a word. Into the cell whose address BC, DE or HL
    /// holds goes a byte. At an address given behind the opcode or in
    /// the I/O page goes a byte, or a word with its low byte first.
    pub open spec fn moved<B: Bus>(self, mem: B::V, lhs: AddressingMode, rhs: AddressingMode) -> Option<
        (CpuState, B::V),
    > {
        let data = self.data::<B>(mem, rhs);
        match lhs {
            AddressingMode::ImmediateRegister(register) => match data {
                DataType::ValueU8(value) => self.stored_u8::<B>(mem, lhs, value),
                DataType::ValueU16(value) => match self.with_r16(register, value) {
                    Some(cpu) => Some((cpu, mem)),
                    None => None,
                },
                DataType::Address(addr) => self.stored_u8::<B>(mem, lhs, B::peek(mem, addr)),
                _ => None,
            },
            AddressingMode::AddressRegister(_) => match data {
                DataType::ValueU8(value) => self.stored_u8::<B>(mem, lhs, value),
                _ => None,
            },
            AddressingMode::AddressU16
            | AddressingMode::IoAddressOffset
            | AddressingMode::AddressHRAM => match (self.data::<B>(mem, lhs), data) {
                (DataType::Address(addr), DataType::ValueU8(value)) => Some(
                    (self, B::poke(mem, addr, value)),
                ),
                (DataType::Address(addr), DataType::ValueU16(value)) => Some(
                    (
                        self,
                        B::poke(
                            B::poke(mem, addr, low_byte(value)),
                            addr.wrapping_add(1),
                            high_byte(value),
                        ),
                    ),
                ),
                _ => None,
            },
            _ => None,
        }
    }

    /// LD: the value that `rhs` resolves to is moved to where `lhs`
    /// points, then HL is moved as the modifier asks.
    pub open spec fn loaded<B: Bus>(
        self,
        mem: B::V,
        lhs: AddressingMode,
        rhs: AddressingMode,
        modifier: Option<StoreLoadModifier>,
    ) -> Option<(CpuState, B::V)> {
        match self.moved::<B>(mem, lhs, rhs) {
            Some((cpu, mem)) => Some((cpu.with_hl_modified(modifier), mem)),
            None => None,
        }
    }
}

impl Cpu {
    /// Moves what `rhs` resolves to to where `lhs` points.
    #[verifier::rlimit(60)]
    fn move_value<B: Bus>(&mut self, bus: &mut B, lhs: &AddressingMode, rhs: &AddressingMode) -> (result:
        Result<(), CpuError>)
        ensures
            effect::<B>(
                old(self)@.moved::<B>(old(bus)@, *lhs, *rhs),
                old(self)@,
                old(bus)@,
                result,
                final(self)@,
                final(bus)@,
            ),
    {
        let data: DataType = self.get_data(bus, rhs);
        match lhs {
            AddressingMode::ImmediateRegister(reg) => match data {
                DataType::ValueU8(value) => self.store_operand(bus, lhs, value),
                DataType::ValueU16(value) => {
                    if self.store_u16(reg, value) {
                        Ok(())
                    } else {
                        Err(operand_error())
                    }
                },
                DataType::Address(addr) => {
                    let value = bus.read_u8(addr);
                    self.store_operand(bus, lhs, value)
                },
                _ => Err(operand_error()),
            },
            AddressingMode::AddressRegister(_) => match data {
                DataType::ValueU8(value) => self.store_operand(bus, lhs, value),
                _ => Err(operand_error()),
            },
            AddressingMode::AddressU16
            | AddressingMode::IoAddressOffset
            | AddressingMode::AddressHRAM => {
                let addr: u16 = match self.get_data(bus, lhs) {
                    DataType::Address(addr) => addr,
                    _ => {
                        return Err(operand_error());
                    },
                };
                match data {
                    DataType::ValueU8(val) => {
                        bus.write_u8(addr, val);
                        Ok(())
                    },
                    DataType::ValueU16(val) => {
                        let lo = val & 0xFF;
                        let hi = (val & 0xFF00) >> 8;
                        bus.write_u8(addr, lo as u8);
                        bus.write_u8(addr.wrapping_add(1), hi as u8);
                        Ok(())
                    },
                    _ => Err(operand_error()),
                }
            },
            _ => Err(operand_error()),
        }
    }

    pub fn load_or_store_value<B: Bus>(
        &mut self,
        bus: &mut B,
        lhs: &AddressingMode,
        rhs: &AddressingMode,
        modifier: Option<StoreLoadModifier>,
    ) -> (result: Result<(), CpuError>)
        ensures
            effect::<B>(
                old(self)@.loaded::<B>(old(bus)@, *lhs, *rhs, modifier),
                old(self)@,
                old(bus)@,
                result,
                final(self)@,
                final(bus)@,
            ),
    {
        self.move_value(bus, lhs, rhs)?;
        let hl = self.get_registers().hl();
        match modifier {
            Some(StoreLoadModifier::DecHL) => {
                self.store_u16(&Register::HL, hl.wrapping_sub(1));
            },
            Some(StoreLoadModifier::IncHL) => {
                self.store_u16(&Register::HL, hl.wrapping_add(1));
            },
            None => (),
        }
        Ok(())
    }
}

} // verus!
