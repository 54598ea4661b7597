//! Rotates, shifts, nibble swaps and single-bit instructions.

use vstd::prelude::*;
use crate::bit_ops::{bit_of, with_bit, BitOps};
use crate::cpu::arithmetic::{is_r8_or_hl, is_r8_or_hl_mode};
use crate::cpu::{effect, effect_on_cpu, operand_error, put_flags, Cpu, CpuState, Direction};
use crate::errors::CpuError;
use crate::memory::Bus;
use crate::opcodes::AddressingMode;

verus! {

/// A byte rotated by one bit, and the bit that left it (0 or 1). To the
/// left, bit 7 leaves and `carry_in` (0 or 1) becomes bit 0; to the
/// right, bit 0 leaves and `carry_in` becomes bit 7. Where the rotation
/// does not go through the carry, the bit that leaves comes in again at
/// the other end.
pub open spec fn rotated_byte(
    data: u8,
    direction: Direction,
    through_carry: bool,
    carry_in: u8,
) -> (u8, u8) {
    match direction {
        Direction::Left => {
            let out = bit_of(data, 7);
            ((data << 1) | (if through_carry { carry_in } else { out }), out)
        },
        Direction::Right => {
            let out = bit_of(data, 0);
            ((data >> 1) | ((if through_carry { carry_in } else { out }) << 7), out)
        },
    }
}

/// A byte shifted by one bit, and the bit that left it. To the left and
/// in a logical shift to the right a 0 comes in; an arithmetic shift to
/// the right keeps bit 7.
pub open spec fn shifted_byte(data: u8, direction: Direction, logical: bool) -> (u8, u8) {
    match direction {
        Direction::Left => (data << 1, bit_of(data, 7)),
        Direction::Right => if logical {
            (data >> 1, bit_of(data, 0))
        } else {
            ((data >> 1) | (bit_of(data, 7) << 7), bit_of(data, 0))
        },
    }
}

/// A byte with its two nibbles exchanged.
pub open spec fn swapped_byte(data: u8) -> u8 {
    ((data & 0x0F) << 4) | (data >> 4)
}

impl CpuState {
    /// A rotate of a register or a memory cell. The bit that leaves
    /// becomes C; N and H are cleared; Z says whether the result is 0
    /// where `update_z` holds and stays where it does not.
    pub open spec fn rotated<B: Bus>(
        self,
        mem: B::V,
        mode: AddressingMode,
        direction: Direction,
        update_z: bool,
        through_carry: bool,
    ) -> Option<(CpuState, B::V)> {
        match self.operand_u8::<B>(mem, mode) {
            Some(data) => {
                let (value, out) = rotated_byte(data, direction, through_carry, self.carry_bit());
                self.stored_with_flags::<B>(
                    mem,
                    mode,
                    value,
                    if update_z { Some(value == 0) } else { None },
                    Some(false),
                    Some(false),
                    Some(out == 1),
                )
            },
            None => None,
        }
    }

    /// A shift of a register or a memory cell. The bit that leaves
    /// becomes C; Z says whether the result is 0; N and H are cleared.
    pub open spec fn shifted<B: Bus>(
        self,
        mem: B::V,
        mode: AddressingMode,
        direction: Direction,
        logical: bool,
    ) -> Option<(CpuState, B::V)> {
        match self.operand_u8::<B>(mem, mode) {
            Some(data) => {
                let (value, out) = shifted_byte(data, direction, logical);
                self.stored_with_flags::<B>(
                    mem,
                    mode,
                    value,
                    Some(value == 0),
                    Some(false),
                    Some(false),
                    Some(out == 1),
                )
            },
            None => None,
        }
    }

    /// SWAP: the nibbles of a register or a memory cell are exchanged; Z
    /// says whether the result is 0; N, H and C are cleared.
    pub open spec fn swapped<B: Bus>(self, mem: B::V, mode: AddressingMode) -> Option<
        (CpuState, B::V),
    > {
        match self.operand_u8::<B>(mem, mode) {
            Some(data) => {
                let value = swapped_byte(data);
                self.stored_with_flags::<B>(
                    mem,
                    mode,
                    value,
                    Some(value == 0),
                    Some(false),
                    Some(false),
                    Some(false),
                )
            },
            None => None,
        }
    }

    /// BIT b,x: Z says whether bit `bit` of the operand is 0; N is
    /// cleared, H is set, C stays. The operand is not changed.
    pub open spec fn bit_checked<B: Bus>(self, mem: B::V, bit: u8, mode: AddressingMode) -> Option<
        CpuState,
    > {
        match self.operand_u8::<B>(mem, mode) {
            Some(data) => Some(
                self.with_flags(Some(bit_of(data, bit) == 0), Some(false), Some(true), None),
            ),
            None => None,
        }
    }

    /// SET b,x where `on` holds, RES b,x where it does not: bit `bit` of
    /// an 8-bit register or of the cell at HL is forced to `on`. No flag
    /// changes.
    pub open spec fn bit_assigned<B: Bus>(
        self,
        mem: B::V,
        bit: u8,
        mode: AddressingMode,
        on: bool,
    ) -> Option<(CpuState, B::V)> {
        match self.operand_u8::<B>(mem, mode) {
            Some(data) if is_r8_or_hl(mode) => self.stored_u8::<B>(
                mem,
                mode,
                with_bit(data, bit, on),
            ),
            _ => None,
        }
    }
}

impl Cpu {
    pub fn rotate<B: Bus>(
        &mut self,
        bus: &mut B,
        addressing_mode: &AddressingMode,
        direction: Direction,
        update_z: bool,
        through_carry: bool,
    ) -> (result: Result<(), CpuError>)
        ensures
            effect::<B>(
                old(self)@.rotated::<B>(
                    old(bus)@,
                    *addressing_mode,
                    direction,
                    update_z,
                    through_carry,
                ),
                old(self)@,
                old(bus)@,
                result,
                final(self)@,
                final(bus)@,
            ),
    {
        let data = match self.read_operand(bus, addressing_mode) {
            Some(data) => data,
            None => {
                return Err(operand_error());
            },
        };
        let carry_in = self.get_registers().get_c_flag();
        let (shifted_out_bit, new_val) = match direction {
            Direction::Left => {
                let shifted_out_bit = data.get_bit(7);
                let new_val = if through_carry {
                    (data << 1) | carry_in
                } else {
                    (data << 1) | shifted_out_bit
                };
                (shifted_out_bit, new_val)
            },
            Direction::Right => {
                let shifted_out_bit = data.get_bit(0);
                let new_val = if through_carry {
                    (data >> 1) | (carry_in << 7)
                } else {
                    (data >> 1) | (shifted_out_bit << 7)
                };
                (shifted_out_bit, new_val)
            },
        };
        self.store_with_flags(
            bus,
            addressing_mode,
            new_val,
            if update_z { Some(new_val == 0) } else { None },
            Some(false),
            Some(false),
            Some(shifted_out_bit == 1),
        )
    }

    pub fn shift<B: Bus>(
        &mut self,
        bus: &mut B,
        addressing_mode: &AddressingMode,
        direction: Direction,
        logical: bool,
    ) -> (result: Result<(), CpuError>)
        ensures
            effect::<B>(
                old(self)@.shifted::<B>(old(bus)@, *addressing_mode, direction, logical),
                old(self)@,
                old(bus)@,
                result,
                final(self)@,
                final(bus)@,
            ),
    {
        let value = match self.read_operand(bus, addressing_mode) {
            Some(value) => value,
            None => {
                return Err(operand_error());
            },
        };
        let (new_val, shifted_out_bit) = match direction {
            Direction::Left => (value << 1, value.get_bit(7)),
            Direction::Right => {
                if logical {
                    (value >> 1, value.get_bit(0))
                } else {
                    let sign_bit = value.get_bit(7);
                    ((value >> 1) | (sign_bit << 7), value.get_bit(0))
                }
            },
        };
        self.store_with_flags(
            bus,
            addressing_mode,
            new_val,
            Some(new_val == 0),
            Some(false),
            Some(false),
            Some(shifted_out_bit == 1),
        )
    }

    pub fn swap<B: Bus>(&mut self, bus: &mut B, addressing_mode: &AddressingMode) -> (result: Result<
        (),
        CpuError,
    >)
        ensures
            effect::<B>(
                old(self)@.swapped::<B>(old(bus)@, *addressing_mode),
                old(self)@,
                old(bus)@,
                result,
                final(self)@,
                final(bus)@,
            ),
    {
        let value = match self.read_operand(bus, addressing_mode) {
            Some(value) => value,
            None => {
                return Err(operand_error());
            },
        };
        let hi = value >> 4;
        let lo = value & 0x0F;
        let new_val = (lo << 4) | hi;
        self.store_with_flags(
            bus,
            addressing_mode,
            new_val,
            Some(new_val == 0),
            Some(false),
            Some(false),
            Some(false),
        )
    }

    pub fn check_bit<B: Bus>(&mut self, bus: &B, bit: u8, addressing_mode: &AddressingMode) -> (result:
        Result<(), CpuError>)
        requires
            bit < 8,
        ensures
            effect_on_cpu(
                old(self)@.bit_checked::<B>(bus@, bit, *addressing_mode),
                old(self)@,
                result,
                final(self)@,
            ),
    {
        proof {
            use_type_invariant(&*self);
        }
        let byte = match self.read_operand(bus, addressing_mode) {
            Some(byte) => byte,
            None => {
                return Err(operand_error());
            },
        };
        let mut reg = self.get_registers();
        put_flags(&mut reg, Some(byte.get_bit(bit) == 0), Some(false), Some(true), None);
        self.load_registers(reg);
        Ok(())
    }

    pub fn set_bit<B: Bus>(&mut self, bus: &mut B, bit: u8, addressing_mode: &AddressingMode) -> (result:
        Result<(), CpuError>)
        requires
            bit < 8,
        ensures
            effect::<B>(
                old(self)@.bit_assigned::<B>(old(bus)@, bit, *addressing_mode, true),
                old(self)@,
                old(bus)@,
                result,
                final(self)@,
                final(bus)@,
            ),
    {
        if !is_r8_or_hl_mode(addressing_mode) {
            return Err(operand_error());
        }
        let mut byte = match self.read_operand(bus, addressing_mode) {
            Some(byte) => byte,
            None => {
                return Err(operand_error());
            },
        };
        byte.set_bit(bit);
        self.store_operand(bus, addressing_mode, byte)
    }

    pub fn reset_bit<B: Bus>(
        &mut self,
        bus: &mut B,
        bit: u8,
        addressing_mode: &AddressingMode,
    ) -> (result: Result<(), CpuError>)
        requires
            bit < 8,
        ensures
            effect::<B>(
                old(self)@.bit_assigned::<B>(old(bus)@, bit, *addressing_mode, false),
                old(self)@,
                old(bus)@,
                result,
                final(self)@,
                final(bus)@,
            ),
    {
        if !is_r8_or_hl_mode(addressing_mode) {
            return Err(operand_error());
        }
        let mut byte = match self.read_operand(bus, addressing_mode) {
            Some(byte) => byte,
            None => {
                return Err(operand_error());
            },
        };
        byte.clear_bit(bit);
        self.store_operand(bus, addressing_mode, byte)
    }
}

} // verus!
