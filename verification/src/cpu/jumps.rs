//! Jumps, calls, returns and the stack instructions.

use vstd::prelude::*;
use crate::cpu::{
    add_offset, effect, effect_on_cpu, is_operand_error, offset_address, operand_error, Cpu,
    CpuState, DataType, JumpCondition,
};
use crate::errors::CpuError;
use crate::memory::{Bus, INTERRUPT_ENABLE};
use crate::opcodes::{AddressingMode, Register};
use crate::registers::{high_byte, Registers};

verus! {

/// The clock cycles that a taken conditional relative or absolute jump
/// costs on top of its base cost.
pub const JUMP_TAKEN_CYCLES: usize = 4;

/// The clock cycles that a taken conditional call or return costs on top
/// of its base cost.
pub const CALL_TAKEN_CYCLES: usize = 12;

impl CpuState {
    /// JR: where the condition holds, the program counter moves by the
    /// signed offset. A conditional jump that is taken costs 4 cycles
    /// more; the state comes with those extra cycles.
    pub open spec fn rel_jumped<B: Bus>(
        self,
        mem: B::V,
        mode: AddressingMode,
        condition: Option<JumpCondition>,
    ) -> Option<(CpuState, usize)> {
        match self.data::<B>(mem, mode) {
            DataType::ValueI8(offset) => if self.condition_holds(condition) {
                Some(
                    (
                        CpuState { pc: offset_address(self.pc, offset), ..self },
                        if condition is Some { JUMP_TAKEN_CYCLES } else { 0 },
                    ),
                )
            } else {
                Some((self, 0))
            },
            _ => None,
        }
    }

    /// JP: where the condition holds, the program counter becomes the
    /// address that the operand resolves to. A conditional jump that is
    /// taken costs 4 cycles more. Where the condition fails nothing
    /// changes and the operand is not looked at.
    pub open spec fn abs_jumped<B: Bus>(
        self,
        mem: B::V,
        mode: AddressingMode,
        condition: Option<JumpCondition>,
    ) -> Option<(CpuState, usize)> {
        if self.condition_holds(condition) {
            match self.data::<B>(mem, mode) {
                DataType::Address(addr) => Some(
                    (
                        CpuState { pc: addr, ..self },
                        if condition is Some { JUMP_TAKEN_CYCLES } else { 0 },
                    ),
                ),
                _ => None,
            }
        } else {
            Some((self, 0))
        }
    }

    /// CALL: where the condition holds, the address of the instruction
    /// after the call (three bytes on) is pushed and the program counter
    /// becomes the call's address. A conditional call that is taken costs
    /// 12 cycles more. Where the condition fails nothing changes.
    pub open spec fn called<B: Bus>(
        self,
        mem: B::V,
        mode: AddressingMode,
        condition: Option<JumpCondition>,
    ) -> Option<(CpuState, B::V, usize)> {
        if self.condition_holds(condition) {
            match self.data::<B>(mem, mode) {
                DataType::Address(addr) => {
                    let (cpu, mem) = self.pushed::<B>(mem, self.pc.wrapping_add(3));
                    Some(
                        (
                            CpuState { pc: addr, ..cpu },
                            mem,
                            if condition is Some { CALL_TAKEN_CYCLES } else { 0 },
                        ),
                    )
                },
                _ => None,
            }
        } else {
            Some((self, mem, 0))
        }
    }

    /// RET: where the condition holds, the program counter is popped. A
    /// conditional return that is taken costs 12 cycles more. An
    /// unconditional return with `set_ime` (RETI) also writes 0xFF to the
    /// interrupt-enable byte.
    pub open spec fn returned<B: Bus>(
        self,
        mem: B::V,
        condition: Option<JumpCondition>,
        set_ime: bool,
    ) -> (CpuState, B::V, usize) {
        if self.condition_holds(condition) {
            let (cpu, addr) = self.popped::<B>(mem);
            (
                CpuState { pc: addr, ..cpu },
                if condition is None && set_ime { B::poke(mem, INTERRUPT_ENABLE, 0xFF) } else { mem },
                if condition is Some { CALL_TAKEN_CYCLES } else { 0 },
            )
        } else {
            (self, mem, 0)
        }
    }

    /// PUSH r16: the value of a register pair is pushed.
    pub open spec fn pushed_register<B: Bus>(self, mem: B::V, mode: AddressingMode) -> Option<
        (CpuState, B::V),
    > {
        match self.data::<B>(mem, mode) {
            DataType::ValueU16(value) => Some(self.pushed::<B>(mem, value)),
            _ => None,
        }
    }

    /// The state with `value` in AF, BC, DE or HL. The low nibble of F
    /// takes no bits: it is 0 afterwards.
    pub open spec fn with_pair(self, register: Register, value: u16) -> Option<CpuState> {
        match register {
            Register::AF => Some(
                CpuState {
                    reg: Registers { a: high_byte(value), f: (value & 0xF0) as u8, ..self.reg },
                    ..self
                },
            ),
            Register::BC | Register::DE | Register::HL => self.with_r16(register, value),
            _ => None,
        }
    }

    /// POP r16: a word is popped into AF, BC, DE or HL.
    pub open spec fn popped_register<B: Bus>(self, mem: B::V, mode: AddressingMode) -> Option<
        CpuState,
    > {
        match mode {
            AddressingMode::ImmediateRegister(register) => {
                let (cpu, value) = self.popped::<B>(mem);
                cpu.with_pair(register, value)
            },
            _ => None,
        }
    }
}

impl Cpu {
    /// Whether a jump condition holds.
    pub fn condition_holds(&self, condition: Option<JumpCondition>) -> (holds: bool)
        ensures
            holds == self@.condition_holds(condition),
    {
        let reg = self.get_registers();
        match condition {
            Some(JumpCondition::Z) => reg.get_z_flag() == 1,
            Some(JumpCondition::NZ) => reg.get_z_flag() == 0,
            Some(JumpCondition::C) => reg.get_c_flag() == 1,
            Some(JumpCondition::NC) => reg.get_c_flag() == 0,
            None => true,
        }
    }

    /// Sets the program counter.
    pub fn set_pc(&mut self, pc: u16)
        ensures
            final(self)@ == (CpuState { pc, ..old(self)@ }),
    {
        proof {
            use_type_invariant(&*self);
        }
        self.pc = pc;
    }

    pub fn rel_jump<B: Bus>(
        &mut self,
        bus: &B,
        addressing_mode: &AddressingMode,
        condition: Option<JumpCondition>,
    ) -> (result: Result<usize, CpuError>)
        ensures
            match old(self)@.rel_jumped::<B>(bus@, *addressing_mode, condition) {
                Some((cpu, extra_cycles)) => result == Ok::<usize, CpuError>(extra_cycles)
                    && final(self)@ == cpu,
                None => result matches Err(e) && is_operand_error(e) && final(self)@ == old(self)@,
            },
    {
        let offset = match self.get_data(bus, addressing_mode) {
            DataType::ValueI8(offset) => offset,
            _ => {
                return Err(operand_error());
            },
        };
        if self.condition_holds(condition) {
            let target = add_offset(self.state().pc, offset);
            self.set_pc(target);
            Ok(if condition.is_some() { JUMP_TAKEN_CYCLES } else { 0 })
        } else {
            Ok(0)
        }
    }

    pub fn abs_jump<B: Bus>(
        &mut self,
        bus: &B,
        addressing_mode: &AddressingMode,
        condition: Option<JumpCondition>,
    ) -> (result: Result<usize, CpuError>)
        ensures
            match old(self)@.abs_jumped::<B>(bus@, *addressing_mode, condition) {
                Some((cpu, extra_cycles)) => result == Ok::<usize, CpuError>(extra_cycles)
                    && final(self)@ == cpu,
                None => result matches Err(e) && is_operand_error(e) && final(self)@ == old(self)@,
            },
    {
        if self.condition_holds(condition) {
            let addr = match self.get_data(bus, addressing_mode) {
                DataType::Address(addr) => addr,
                _ => {
                    return Err(operand_error());
                },
            };
            self.set_pc(addr);
            Ok(if condition.is_some() { JUMP_TAKEN_CYCLES } else { 0 })
        } else {
            Ok(0)
        }
    }

    pub fn call<B: Bus>(
        &mut self,
        bus: &mut B,
        addressing_mode: &AddressingMode,
        condition: Option<JumpCondition>,
    ) -> (result: Result<usize, CpuError>)
        ensures
            match old(self)@.called::<B>(old(bus)@, *addressing_mode, condition) {
                Some((cpu, mem, extra_cycles)) => {
                    &&& result == Ok::<usize, CpuError>(extra_cycles)
                    &&& final(self)@ == cpu
                    &&& final(bus)@ == mem
                },
                None => {
                    &&& result matches Err(e) && is_operand_error(e)
                    &&& final(self)@ == old(self)@
                    &&& final(bus)@ == old(bus)@
                },
            },
    {
        if self.condition_holds(condition) {
            let addr = match self.get_data(bus, addressing_mode) {
                DataType::Address(addr) => addr,
                _ => {
                    return Err(operand_error());
                },
            };
            let return_addr = self.state().pc.wrapping_add(3);
            self.push_stack(bus, return_addr);
            self.set_pc(addr);
            Ok(if condition.is_some() { CALL_TAKEN_CYCLES } else { 0 })
        } else {
            Ok(0)
        }
    }

    pub fn ret<B: Bus>(&mut self, bus: &mut B, condition: Option<JumpCondition>, set_ime: bool) -> (extra_cycles:
        usize)
        ensures
            (final(self)@, final(bus)@, extra_cycles) == old(self)@.returned::<B>(
                old(bus)@,
                condition,
                set_ime,
            ),
    {
        if self.condition_holds(condition) {
            let addr = self.pop_stack(bus);
            self.set_pc(addr);
            if condition.is_none() {
                if set_ime {
                    bus.write_u8(INTERRUPT_ENABLE, 0xFF);
                }
                0
            } else {
                CALL_TAKEN_CYCLES
            }
        } else {
            0
        }
    }

    pub fn push_stack_instr<B: Bus>(&mut self, bus: &mut B, addressing_mode: &AddressingMode) -> (result:
        Result<(), CpuError>)
        ensures
            effect::<B>(
                old(self)@.pushed_register::<B>(old(bus)@, *addressing_mode),
                old(self)@,
                old(bus)@,
                result,
                final(self)@,
                final(bus)@,
            ),
    {
        let value = match self.get_data(bus, addressing_mode) {
            DataType::ValueU16(value) => value,
            _ => {
                return Err(operand_error());
            },
        };
        self.push_stack(bus, value);
        Ok(())
    }

    pub fn pop_stack_instr<B: Bus>(&mut self, bus: &B, addressing_mode: &AddressingMode) -> (result:
        Result<(), CpuError>)
        ensures
            effect_on_cpu(
                old(self)@.popped_register::<B>(bus@, *addressing_mode),
                old(self)@,
                result,
                final(self)@,
            ),
    {
        match addressing_mode {
            AddressingMode::ImmediateRegister(Register::AF) => {
                let value = self.pop_stack(bus);
                let mut reg = self.get_registers();
                reg.set_af(value);
                self.load_registers(reg);
                Ok(())
            },
            AddressingMode::ImmediateRegister(Register::BC) => {
                let value = self.pop_stack(bus);
                self.store_u16(&Register::BC, value);
                Ok(())
            },
            AddressingMode::ImmediateRegister(Register::DE) => {
                let value = self.pop_stack(bus);
                self.store_u16(&Register::DE, value);
                Ok(())
            },
            AddressingMode::ImmediateRegister(Register::HL) => {
                let value = self.pop_stack(bus);
                self.store_u16(&Register::HL, value);
                Ok(())
            },
            _ => Err(operand_error()),
        }
    }
}

} // verus!
