//! The fetch-decode-execute step.

use vstd::prelude::*;
use crate::cpu::jumps::CALL_TAKEN_CYCLES;
use crate::cpu::laws::lemma_step_outcomes;
use crate::cpu::{
    effect_on_cpu, operand_error_text, Cpu, CpuState, Direction, JumpCondition, StoreLoadModifier,
};
use crate::errors::{CpuError, CpuErrorView};
use crate::memory::Bus;
use crate::opcodes::{
    normal_opcode, normal_table, prefixed_opcode, prefixed_table, table_view, AddressingMode,
    Opcode, OpcodeView,
};

verus! {

/// What the handler of an instruction left.
pub enum Dispatch<M> {
    /// The instruction ran. `extra_cycles` is what it costs on top of its
    /// base cost; `jumped` says that it set the program counter itself,
    /// so that the counter does not move on by the instruction's length.
    Done { cpu: CpuState, mem: M, extra_cycles: usize, jumped: bool },
    /// An operand was of the wrong kind.
    OperandError,
    /// The opcode has no handler.
    NotImplemented,
}

/// The outcome of a family that may reject its operand and may write
/// memory.
pub open spec fn ran<M>(outcome: Option<(CpuState, M)>) -> Dispatch<M> {
    match outcome {
        Some((cpu, mem)) => Dispatch::Done { cpu, mem, extra_cycles: 0, jumped: false },
        None => Dispatch::OperandError,
    }
}

/// The outcome of a family that may reject its operand and writes no
/// memory.
pub open spec fn ran_on_cpu<M>(outcome: Option<CpuState>, mem: M) -> Dispatch<M> {
    match outcome {
        Some(cpu) => Dispatch::Done { cpu, mem, extra_cycles: 0, jumped: false },
        None => Dispatch::OperandError,
    }
}

/// The outcome of a family that always runs and writes no memory.
pub open spec fn ran_always<M>(cpu: CpuState, mem: M) -> Dispatch<M> {
    Dispatch::Done { cpu, mem, extra_cycles: 0, jumped: false }
}

/// The outcome of a relative jump: the program counter still moves on by
/// the instruction's length afterwards.
pub open spec fn ran_relative<M>(outcome: Option<(CpuState, usize)>, mem: M) -> Dispatch<M> {
    match outcome {
        Some((cpu, extra_cycles)) => Dispatch::Done { cpu, mem, extra_cycles, jumped: false },
        None => Dispatch::OperandError,
    }
}

/// The outcome of an absolute jump. An unconditional one has set the
/// program counter; a conditional one has done so where it cost extra
/// cycles.
pub open spec fn ran_jump<M>(
    outcome: Option<(CpuState, usize)>,
    mem: M,
    conditional: bool,
) -> Dispatch<M> {
    match outcome {
        Some((cpu, extra_cycles)) => Dispatch::Done {
            cpu,
            mem,
            extra_cycles,
            jumped: !conditional || extra_cycles > 0,
        },
        None => Dispatch::OperandError,
    }
}

/// The outcome of a call, as for an absolute jump.
pub open spec fn ran_call<M>(outcome: Option<(CpuState, M, usize)>, conditional: bool) -> Dispatch<
    M,
> {
    match outcome {
        Some((cpu, mem, extra_cycles)) => Dispatch::Done {
            cpu,
            mem,
            extra_cycles,
            jumped: !conditional || extra_cycles > 0,
        },
        None => Dispatch::OperandError,
    }
}

/// The outcome of a return, as for an absolute jump.
pub open spec fn ran_return<M>(outcome: (CpuState, M, usize), conditional: bool) -> Dispatch<M> {
    Dispatch::Done {
        cpu: outcome.0,
        mem: outcome.1,
        extra_cycles: outcome.2,
        jumped: !conditional || outcome.2 > 0,
    }
}

/// Whether an opcode below 0x40 is one of the arithmetic ones. Those fill
/// the columns of the opcode table whose low three bits are 3, 4, 5 or 7,
/// and the column of the additions to HL, whose low four bits are 9.
pub open spec fn is_low_arithmetic(code: u8) -> bool {
    code % 8 == 3 || code % 8 == 4 || code % 8 == 5 || code % 8 == 7 || code % 16 == 9
}

impl CpuState {
    /// What the handler of a prefixed opcode leaves. The first quarter of
    /// the table rotates, shifts and swaps its left operand; the other
    /// three test, clear and set bit `(code / 8) % 8` of the right one.
    #[verifier::opaque]
    pub open spec fn dispatched_prefixed<B: Bus>(
        self,
        mem: B::V,
        code: u8,
        lhs: AddressingMode,
        rhs: AddressingMode,
    ) -> Dispatch<B::V> {
        let bit = ((code / 8) % 8) as u8;
        match code / 64 {
            0 => match bit {
                0 => ran(self.rotated::<B>(mem, lhs, Direction::Left, true, false)),
                1 => ran(self.rotated::<B>(mem, lhs, Direction::Right, true, false)),
                2 => ran(self.rotated::<B>(mem, lhs, Direction::Left, true, true)),
                3 => ran(self.rotated::<B>(mem, lhs, Direction::Right, true, true)),
                4 => ran(self.shifted::<B>(mem, lhs, Direction::Left, false)),
                5 => ran(self.shifted::<B>(mem, lhs, Direction::Right, false)),
                6 => ran(self.swapped::<B>(mem, lhs)),
                _ => ran(self.shifted::<B>(mem, lhs, Direction::Right, true)),
            },
            1 => ran_on_cpu(self.bit_checked::<B>(mem, bit, rhs), mem),
            2 => ran(self.bit_assigned::<B>(mem, bit, rhs, false)),
            _ => ran(self.bit_assigned::<B>(mem, bit, rhs, true)),
        }
    }

    /// The arithmetic or logic operation numbered `index` on the
    /// accumulator: ADD, ADC, SUB, SBC, AND, XOR, OR and CP, in the order
    /// in which the opcode table lists them.
    pub open spec fn combined_with_a<B: Bus>(self, mem: B::V, index: u8, rhs: AddressingMode) -> Option<
        CpuState,
    > {
        match index {
            0 => self.added_to_a::<B>(mem, rhs),
            1 => self.added_with_carry::<B>(mem, rhs),
            2 => self.subtracted_from_a::<B>(mem, rhs, true),
            3 => self.subtracted_with_carry::<B>(mem, rhs),
            4 => self.anded_with_a::<B>(mem, rhs),
            5 => self.xored_with_a::<B>(mem, rhs),
            6 => self.ored_with_a::<B>(mem, rhs),
            _ => self.subtracted_from_a::<B>(mem, rhs, false),
        }
    }

    /// What the handler of one of the arithmetic opcodes from 0x00 to
    /// 0x3F leaves: increments and decrements, additions to HL, the
    /// accumulator rotates and the adjustments of the accumulator and the
    /// carry.
    #[verifier::opaque]
    pub open spec fn dispatched_low_arithmetic<B: Bus>(
        self,
        mem: B::V,
        code: u8,
        lhs: AddressingMode,
        rhs: AddressingMode,
    ) -> Dispatch<B::V> {
        match code {
            0x05 | 0x0d | 0x15 | 0x1d | 0x25 | 0x2d | 0x35 | 0x3d => ran(
                self.decremented_u8::<B>(mem, lhs),
            ),
            0x04 | 0x0c | 0x14 | 0x1c | 0x24 | 0x2c | 0x34 | 0x3c => ran(
                self.incremented_u8::<B>(mem, lhs),
            ),
            0x03 | 0x13 | 0x23 | 0x33 => ran_on_cpu(self.incremented_u16(lhs), mem),
            0x0b | 0x1b | 0x2b | 0x3b => ran_on_cpu(self.decremented_u16(lhs), mem),
            0x09 | 0x19 | 0x29 | 0x39 => ran_on_cpu(self.added_to_hl::<B>(mem, rhs), mem),
            0x27 => ran_always(self.decimal_adjusted(), mem),
            0x07 => ran(self.rotated::<B>(mem, lhs, Direction::Left, false, false)),
            0x0f => ran(self.rotated::<B>(mem, lhs, Direction::Right, false, false)),
            0x17 => ran(self.rotated::<B>(mem, lhs, Direction::Left, false, true)),
            0x1f => ran(self.rotated::<B>(mem, lhs, Direction::Right, false, true)),
            0x2f => ran_always(self.complemented(), mem),
            0x37 => ran_always(self.carry_set(), mem),
            0x3f => ran_always(self.carry_flipped(), mem),
            _ => Dispatch::NotImplemented,
        }
    }

    /// What the handler of one of the other opcodes from 0x00 to 0x3F
    /// leaves: NOP and STOP, which do nothing, loads and relative jumps.
    #[verifier::opaque]
    pub open spec fn dispatched_low_moves<B: Bus>(
        self,
        mem: B::V,
        code: u8,
        lhs: AddressingMode,
        rhs: AddressingMode,
    ) -> Dispatch<B::V> {
        match code {
            0x00 | 0x10 => ran_always(self, mem),
            0x01 | 0x02 | 0x06 | 0x08 | 0x0a | 0x0e | 0x11 | 0x12 | 0x16 | 0x1a | 0x1e | 0x21
            | 0x26 | 0x2e | 0x31 | 0x36 | 0x3e => ran(self.loaded::<B>(mem, lhs, rhs, None)),
            0x22 | 0x2a => ran(self.loaded::<B>(mem, lhs, rhs, Some(StoreLoadModifier::IncHL))),
            0x32 | 0x3a => ran(self.loaded::<B>(mem, lhs, rhs, Some(StoreLoadModifier::DecHL))),
            0x18 => ran_relative(self.rel_jumped::<B>(mem, rhs, None), mem),
            0x20 => ran_relative(self.rel_jumped::<B>(mem, rhs, Some(JumpCondition::NZ)), mem),
            0x28 => ran_relative(self.rel_jumped::<B>(mem, rhs, Some(JumpCondition::Z)), mem),
            0x30 => ran_relative(self.rel_jumped::<B>(mem, rhs, Some(JumpCondition::NC)), mem),
            0x38 => ran_relative(self.rel_jumped::<B>(mem, rhs, Some(JumpCondition::C)), mem),
            _ => Dispatch::NotImplemented,
        }
    }

    /// What the handler of an opcode from 0xC0 to 0xFF leaves: returns,
    /// jumps, calls, the stack instructions, arithmetic with an
    /// immediate, loads through the I/O page and the interrupt flag.
    #[verifier::opaque]
    pub open spec fn dispatched_high<B: Bus>(
        self,
        mem: B::V,
        code: u8,
        lhs: AddressingMode,
        rhs: AddressingMode,
    ) -> Dispatch<B::V> {
        match code {
            0xc0 => ran_return(self.returned::<B>(mem, Some(JumpCondition::NZ), false), true),
            0xc8 => ran_return(self.returned::<B>(mem, Some(JumpCondition::Z), false), true),
            0xd0 => ran_return(self.returned::<B>(mem, Some(JumpCondition::NC), false), true),
            0xd8 => ran_return(self.returned::<B>(mem, Some(JumpCondition::C), false), true),
            0xc9 => ran_return(self.returned::<B>(mem, None, false), false),
            0xd9 => ran_return(self.returned::<B>(mem, None, true), false),
            0xc1 | 0xd1 | 0xe1 | 0xf1 => ran_on_cpu(self.popped_register::<B>(mem, lhs), mem),
            0xc5 | 0xd5 | 0xe5 | 0xf5 => ran(self.pushed_register::<B>(mem, lhs)),
            0xc2 => ran_jump(self.abs_jumped::<B>(mem, rhs, Some(JumpCondition::NZ)), mem, true),
            0xca => ran_jump(self.abs_jumped::<B>(mem, rhs, Some(JumpCondition::Z)), mem, true),
            0xd2 => ran_jump(self.abs_jumped::<B>(mem, rhs, Some(JumpCondition::NC)), mem, true),
            0xda => ran_jump(self.abs_jumped::<B>(mem, rhs, Some(JumpCondition::C)), mem, true),
            0xc3 | 0xe9 => ran_jump(self.abs_jumped::<B>(mem, lhs, None), mem, false),
            0xc4 => ran_call(self.called::<B>(mem, rhs, Some(JumpCondition::NZ)), true),
            0xcc => ran_call(self.called::<B>(mem, rhs, Some(JumpCondition::Z)), true),
            0xd4 => ran_call(self.called::<B>(mem, rhs, Some(JumpCondition::NC)), true),
            0xdc => ran_call(self.called::<B>(mem, rhs, Some(JumpCondition::C)), true),
            0xcd => ran_call(self.called::<B>(mem, lhs, None), false),
            0xc6 | 0xce | 0xd6 | 0xde | 0xe6 | 0xee | 0xf6 | 0xfe => ran_on_cpu(
                self.combined_with_a::<B>(mem, ((code - 0xc6) / 8) as u8, rhs),
                mem,
            ),
            0xe2 | 0xe0 | 0xea | 0xf0 | 0xfa => ran(self.loaded::<B>(mem, lhs, rhs, None)),
            0xe8 => ran_on_cpu(self.added_to_sp::<B>(mem, rhs), mem),
            0xf8 => ran_on_cpu(self.loaded_hl_from_sp::<B>(mem, rhs), mem),
            0xf3 => ran_always(CpuState { ime: true, ..self }, mem),
            0xfb => ran_always(CpuState { ime: false, ..self }, mem),
            _ => Dispatch::NotImplemented,
        }
    }

    /// What the handler of an unprefixed opcode leaves. From 0x40 to 0x7F
    /// lie the loads between registers, with HALT at 0x76, which does
    /// nothing; from 0x80 to 0xBF the arithmetic on the accumulator.
    pub open spec fn dispatched_normal<B: Bus>(
        self,
        mem: B::V,
        code: u8,
        lhs: AddressingMode,
        rhs: AddressingMode,
    ) -> Dispatch<B::V> {
        if code < 0x40 {
            if is_low_arithmetic(code) {
                self.dispatched_low_arithmetic::<B>(mem, code, lhs, rhs)
            } else {
                self.dispatched_low_moves::<B>(mem, code, lhs, rhs)
            }
        } else if code == 0x76 {
            ran_always(self, mem)
        } else if code < 0x80 {
            ran(self.loaded::<B>(mem, lhs, rhs, None))
        } else if code < 0xc0 {
            ran_on_cpu(self.combined_with_a::<B>(mem, ((code - 0x80) / 8) as u8, rhs), mem)
        } else {
            self.dispatched_high::<B>(mem, code, lhs, rhs)
        }
    }

    /// The opcode byte that the next instruction is decoded from, and
    /// whether it stands behind the prefix 0xCB.
    pub open spec fn next_code<B: Bus>(self, mem: B::V) -> (u8, bool) {
        if B::peek(mem, self.pc) == 0xCB {
            (B::peek(mem, self.pc.wrapping_add(1)), true)
        } else {
            (B::peek(mem, self.pc), false)
        }
    }

    /// The table entry of the next instruction, if its opcode byte has
    /// one.
    pub open spec fn next_entry<B: Bus>(self, mem: B::V) -> Option<OpcodeView> {
        let (code, prefixed) = self.next_code::<B>(mem);
        if prefixed {
            prefixed_opcode(code)
        } else {
            normal_opcode(code)
        }
    }

    /// One instruction: what it returns, and the state and the memory
    /// that it leaves.
    ///
    /// The byte at the program counter is looked up in the unprefixed
    /// table, or, where it is 0xCB, the byte after it in the prefixed
    /// table. A byte without an entry is an unrecognized opcode. The
    /// entry's operands go to the handler of the opcode. After it the
    /// program counter moves on by the entry's length, unless the handler
    /// jumped. The cost is the entry's cycles and the handler's extra
    /// cycles. Every failure leaves the state and the memory as they
    /// were.
    pub open spec fn stepped<B: Bus>(self, mem: B::V) -> (Result<usize, CpuErrorView>, CpuState, B::V) {
        let (code, prefixed) = self.next_code::<B>(mem);
        match self.next_entry::<B>(mem) {
            None => (Err(CpuErrorView::UnrecognizedOpcode(code, prefixed)), self, mem),
            Some(op) => match (if prefixed {
                self.dispatched_prefixed::<B>(mem, code, op.lhs, op.rhs)
            } else {
                self.dispatched_normal::<B>(mem, code, op.lhs, op.rhs)
            }) {
                Dispatch::Done { cpu, mem, extra_cycles, jumped } => (
                    Ok((op.t_cycles + extra_cycles) as usize),
                    if jumped {
                        cpu
                    } else {
                        CpuState { pc: cpu.pc.wrapping_add(op.bytes as u16), ..cpu }
                    },
                    mem,
                ),
                Dispatch::OperandError => (
                    Err(CpuErrorView::OpcodeError(operand_error_text())),
                    self,
                    mem,
                ),
                Dispatch::NotImplemented => (
                    Err(CpuErrorView::OpcodeNotImplemented(code, prefixed)),
                    self,
                    mem,
                ),
            },
        }
    }
}

/// What holds after a handler was called: the state and the memory are
/// what `expected` says, and an error is the one it names and leaves
/// both as they were.
pub open spec fn dispatch_effect<B: Bus>(
    expected: Dispatch<B::V>,
    code: u8,
    prefixed: bool,
    old_cpu: CpuState,
    old_mem: B::V,
    result: Result<(usize, bool), CpuError>,
    new_cpu: CpuState,
    new_mem: B::V,
) -> bool {
    match expected {
        Dispatch::Done { cpu, mem, extra_cycles, jumped } => {
            &&& result == Ok::<(usize, bool), CpuError>((extra_cycles, jumped))
            &&& new_cpu == cpu
            &&& new_mem == mem
        },
        Dispatch::OperandError => {
            &&& result matches Err(e) && e@ == CpuErrorView::OpcodeError(operand_error_text())
            &&& new_cpu == old_cpu
            &&& new_mem == old_mem
        },
        Dispatch::NotImplemented => {
            &&& result matches Err(e) && e@ == CpuErrorView::OpcodeNotImplemented(code, prefixed)
            &&& new_cpu == old_cpu
            &&& new_mem == old_mem
        },
    }
}

/// The view of what a step returns.
pub open spec fn step_result_view(result: Result<usize, CpuError>) -> Result<usize, CpuErrorView> {
    match result {
        Ok(cycles) => Ok(cycles),
        Err(e) => Err(e@),
    }
}

impl Cpu {
    /// Runs the arithmetic or logic operation numbered `index` on the
    /// accumulator.
    pub fn combine_with_a<B: Bus>(&mut self, bus: &B, index: u8, rhs: &AddressingMode) -> (result:
        Result<(), CpuError>)
        ensures
            effect_on_cpu(
                old(self)@.combined_with_a::<B>(bus@, index, *rhs),
                old(self)@,
                result,
                final(self)@,
            ),
    {
        match index {
            0 => self.add_a_u8(bus, rhs),
            1 => self.adc(bus, rhs),
            2 => self.sub_a(bus, rhs, true),
            3 => self.sbc(bus, rhs),
            4 => self.and(bus, rhs),
            5 => self.xor_with_a(bus, rhs),
            6 => self.or_with_a(bus, rhs),
            _ => self.sub_a(bus, rhs, false),
        }
    }

    /// Sets the stored interrupt flag.
    pub fn set_ime(&mut self, ime: bool)
        ensures
            final(self)@ == (CpuState { ime, ..old(self)@ }),
    {
        proof {
            use_type_invariant(&*self);
        }
        self.ime = ime;
    }

    /// Runs the handler of one of the arithmetic opcodes from 0x00 to
    /// 0x3F.
    #[verifier::rlimit(60)]
    pub fn execute_low_arithmetic<B: Bus>(
        &mut self,
        bus: &mut B,
        code: u8,
        lhs: &AddressingMode,
        rhs: &AddressingMode,
    ) -> (result: Result<(usize, bool), CpuError>)
        ensures
            dispatch_effect::<B>(
                old(self)@.dispatched_low_arithmetic::<B>(old(bus)@, code, *lhs, *rhs),
                code,
                false,
                old(self)@,
                old(bus)@,
                result,
                final(self)@,
                final(bus)@,
            ),
            result matches Ok(ran) ==> ran.0 <= CALL_TAKEN_CYCLES,
    {
        reveal(CpuState::dispatched_low_arithmetic);
        match code {
            0x05 | 0x0d | 0x15 | 0x1d | 0x25 | 0x2d | 0x35 | 0x3d => self.decrement_u8(bus, lhs)?,
            0x04 | 0x0c | 0x14 | 0x1c | 0x24 | 0x2c | 0x34 | 0x3c => self.increment_u8(bus, lhs)?,
            0x03 | 0x13 | 0x23 | 0x33 => self.increment_u16(bus, lhs)?,
            0x0b | 0x1b | 0x2b | 0x3b => self.decrement_u16(bus, lhs)?,
            0x09 | 0x19 | 0x29 | 0x39 => self.add_hl_u16(bus, rhs)?,
            0x27 => self.daa(),
            0x07 => self.rotate(bus, lhs, Direction::Left, false, false)?,
            0x0f => self.rotate(bus, lhs, Direction::Right, false, false)?,
            0x17 => self.rotate(bus, lhs, Direction::Left, false, true)?,
            0x1f => self.rotate(bus, lhs, Direction::Right, false, true)?,
            0x2f => self.cpl(),
            0x37 => self.scf(),
            0x3f => self.ccf(),
            _ => {
                return Err(CpuError::OpcodeNotImplemented(code, false));
            },
        }
        Ok((0, false))
    }

    /// Runs the handler of one of the other opcodes from 0x00 to 0x3F.
    #[verifier::rlimit(60)]
    pub fn execute_low_moves<B: Bus>(
        &mut self,
        bus: &mut B,
        code: u8,
        lhs: &AddressingMode,
        rhs: &AddressingMode,
    ) -> (result: Result<(usize, bool), CpuError>)
        ensures
            dispatch_effect::<B>(
                old(self)@.dispatched_low_moves::<B>(old(bus)@, code, *lhs, *rhs),
                code,
                false,
                old(self)@,
                old(bus)@,
                result,
                final(self)@,
                final(bus)@,
            ),
            result matches Ok(ran) ==> ran.0 <= CALL_TAKEN_CYCLES,
    {
        reveal(CpuState::dispatched_low_moves);
        let mut extra_cycles: usize = 0;
        match code {
            0x00 | 0x10 => (),
            0x01 | 0x02 | 0x06 | 0x08 | 0x0a | 0x0e | 0x11 | 0x12 | 0x16 | 0x1a | 0x1e | 0x21
            | 0x26 | 0x2e | 0x31 | 0x36 | 0x3e => self.load_or_store_value(bus, lhs, rhs, None)?,
            0x22 | 0x2a => self.load_or_store_value(bus, lhs, rhs, Some(StoreLoadModifier::IncHL))?,
            0x32 | 0x3a => self.load_or_store_value(bus, lhs, rhs, Some(StoreLoadModifier::DecHL))?,
            0x18 => extra_cycles = self.rel_jump(bus, rhs, None)?,
            0x20 => extra_cycles = self.rel_jump(bus, rhs, Some(JumpCondition::NZ))?,
            0x28 => extra_cycles = self.rel_jump(bus, rhs, Some(JumpCondition::Z))?,
            0x30 => extra_cycles = self.rel_jump(bus, rhs, Some(JumpCondition::NC))?,
            0x38 => extra_cycles = self.rel_jump(bus, rhs, Some(JumpCondition::C))?,
            _ => {
                return Err(CpuError::OpcodeNotImplemented(code, false));
            },
        }
        Ok((extra_cycles, false))
    }

    /// Runs the handler of an opcode from 0xC0 to 0xFF.
    #[verifier::rlimit(60)]
    pub fn execute_high<B: Bus>(
        &mut self,
        bus: &mut B,
        code: u8,
        lhs: &AddressingMode,
        rhs: &AddressingMode,
    ) -> (result: Result<(usize, bool), CpuError>)
        ensures
            dispatch_effect::<B>(
                old(self)@.dispatched_high::<B>(old(bus)@, code, *lhs, *rhs),
                code,
                false,
                old(self)@,
                old(bus)@,
                result,
                final(self)@,
                final(bus)@,
            ),
            result matches Ok(ran) ==> ran.0 <= CALL_TAKEN_CYCLES,
    {
        reveal(CpuState::dispatched_high);
        let mut skip_pc_increase = false;
        let mut extra_cycles: usize = 0;
        match code {
            0xc0 | 0xc8 | 0xd0 | 0xd8 => {
                let condition = match code {
                    0xc0 => JumpCondition::NZ,
                    0xc8 => JumpCondition::Z,
                    0xd0 => JumpCondition::NC,
                    _ => JumpCondition::C,
                };
                extra_cycles = self.ret(bus, Some(condition), false);
                skip_pc_increase = extra_cycles > 0;
            },
            0xc9 => {
                skip_pc_increase = true;
                extra_cycles = self.ret(bus, None, false);
            },
            0xd9 => {
                skip_pc_increase = true;
                extra_cycles = self.ret(bus, None, true);
            },
            0xc1 | 0xd1 | 0xe1 | 0xf1 => self.pop_stack_instr(bus, lhs)?,
            0xc5 | 0xd5 | 0xe5 | 0xf5 => self.push_stack_instr(bus, lhs)?,
            0xc2 | 0xca | 0xd2 | 0xda => {
                let condition = match code {
                    0xc2 => JumpCondition::NZ,
                    0xca => JumpCondition::Z,
                    0xd2 => JumpCondition::NC,
                    _ => JumpCondition::C,
                };
                extra_cycles = self.abs_jump(bus, rhs, Some(condition))?;
                skip_pc_increase = extra_cycles > 0;
            },
            0xc3 | 0xe9 => {
                skip_pc_increase = true;
                extra_cycles = self.abs_jump(bus, lhs, None)?;
            },
            0xc4 | 0xcc | 0xd4 | 0xdc => {
                let condition = match code {
                    0xc4 => JumpCondition::NZ,
                    0xcc => JumpCondition::Z,
                    0xd4 => JumpCondition::NC,
                    _ => JumpCondition::C,
                };
                extra_cycles = self.call(bus, rhs, Some(condition))?;
                skip_pc_increase = extra_cycles > 0;
            },
            0xcd => {
                skip_pc_increase = true;
                extra_cycles = self.call(bus, lhs, None)?;
            },
            0xc6 | 0xce | 0xd6 | 0xde | 0xe6 | 0xee | 0xf6 | 0xfe => {
                self.combine_with_a(bus, (code - 0xc6) / 8, rhs)?
            },
            0xe2 | 0xe0 | 0xea | 0xf0 | 0xfa => self.load_or_store_value(bus, lhs, rhs, None)?,
            0xe8 => self.add_sp_e8(bus, rhs)?,
            0xf8 => self.ld_hl_sp_e8(bus, rhs)?,
            0xf3 => self.set_ime(true),
            0xfb => self.set_ime(false),
            _ => {
                return Err(CpuError::OpcodeNotImplemented(code, false));
            },
        }
        Ok((extra_cycles, skip_pc_increase))
    }

    /// Runs the handler of an unprefixed opcode on the operands of its
    /// table entry.
    #[verifier::rlimit(60)]
    pub fn execute_normal<B: Bus>(
        &mut self,
        bus: &mut B,
        code: u8,
        lhs: &AddressingMode,
        rhs: &AddressingMode,
    ) -> (result: Result<(usize, bool), CpuError>)
        ensures
            dispatch_effect::<B>(
                old(self)@.dispatched_normal::<B>(old(bus)@, code, *lhs, *rhs),
                code,
                false,
                old(self)@,
                old(bus)@,
                result,
                final(self)@,
                final(bus)@,
            ),
            result matches Ok(ran) ==> ran.0 <= CALL_TAKEN_CYCLES,
    {
        if code < 0x40 {
            let column = code % 8;
            if column == 3 || column == 4 || column == 5 || column == 7 || code % 16 == 9 {
                self.execute_low_arithmetic(bus, code, lhs, rhs)
            } else {
                self.execute_low_moves(bus, code, lhs, rhs)
            }
        } else if code == 0x76 {
            Ok((0, false))
        } else if code < 0x80 {
            self.load_or_store_value(bus, lhs, rhs, None)?;
            Ok((0, false))
        } else if code < 0xc0 {
            self.combine_with_a(bus, (code - 0x80) / 8, rhs)?;
            Ok((0, false))
        } else {
            self.execute_high(bus, code, lhs, rhs)
        }
    }

    /// Runs the handler of a prefixed opcode on the operands of its table
    /// entry.
    #[verifier::rlimit(60)]
    pub fn execute_prefixed<B: Bus>(
        &mut self,
        bus: &mut B,
        code: u8,
        lhs: &AddressingMode,
        rhs: &AddressingMode,
    ) -> (result: Result<(usize, bool), CpuError>)
        ensures
            dispatch_effect::<B>(
                old(self)@.dispatched_prefixed::<B>(old(bus)@, code, *lhs, *rhs),
                code,
                true,
                old(self)@,
                old(bus)@,
                result,
                final(self)@,
                final(bus)@,
            ),
            result matches Ok(ran) ==> ran.0 <= CALL_TAKEN_CYCLES,
    {
        reveal(CpuState::dispatched_prefixed);
        let bit = (code / 8) % 8;
        match code / 64 {
            0 => match bit {
                0 => self.rotate(bus, lhs, Direction::Left, true, false)?,
                1 => self.rotate(bus, lhs, Direction::Right, true, false)?,
                2 => self.rotate(bus, lhs, Direction::Left, true, true)?,
                3 => self.rotate(bus, lhs, Direction::Right, true, true)?,
                4 => self.shift(bus, lhs, Direction::Left, false)?,
                5 => self.shift(bus, lhs, Direction::Right, false)?,
                6 => self.swap(bus, lhs)?,
                _ => self.shift(bus, lhs, Direction::Right, true)?,
            },
            1 => self.check_bit(bus, bit, rhs)?,
            2 => self.reset_bit(bus, bit, rhs)?,
            _ => self.set_bit(bus, bit, rhs)?,
        }
        Ok((0, false))
    }

    /// Reads the opcode byte of the next instruction and looks it up:
    /// the byte, whether it stands behind the prefix 0xCB, and its table
    /// entry, if it has one.
    pub fn next_opcode<'a, B: Bus>(&'a self, bus: &B) -> (fetched: (u8, bool, Option<&'a Opcode>))
        ensures
            (fetched.0, fetched.1) == self@.next_code::<B>(bus@),
            match fetched.2 {
                Some(opcode) => Some(opcode@),
                None => None,
            } == self@.next_entry::<B>(bus@),
    {
        proof {
            use_type_invariant(self);
        }
        let first = bus.read_u8(self.pc);
        let prefixed = first == 0xcb;
        let code = if prefixed { bus.read_u8(self.pc.wrapping_add(1)) } else { first };
        proof {
            assert(table_view(self.normal_opcodes@).len() == 256);
            assert(table_view(self.prefixed_opcodes@).len() == 256);
            assert(table_view(self.normal_opcodes@)[code as int] == normal_table()[code as int]);
            assert(table_view(self.prefixed_opcodes@)[code as int] == prefixed_table()[code as int]);
        }
        let slot = if prefixed {
            &self.prefixed_opcodes[code as usize]
        } else {
            &self.normal_opcodes[code as usize]
        };
        match slot {
            Some(opcode) => (code, prefixed, Some(opcode)),
            None => (code, prefixed, None),
        }
    }

    /// Runs one instruction and returns what it cost in clock cycles.
    ///
    /// Fails on a byte that is no instruction and on an instruction
    /// without a handler, and then changes nothing.
    #[verifier::rlimit(60)]
    pub fn execute_next_opcode<B: Bus>(&mut self, bus: &mut B) -> (result: Result<usize, CpuError>)
        ensures
            (step_result_view(result), final(self)@, final(bus)@) == old(self)@.stepped::<B>(
                old(bus)@,
            ),
            result matches Ok(cycles) ==> 4 <= cycles <= 24,
            result matches Err(e) ==> {
                &&& !(e is OpcodeError)
                &&& final(self)@ == old(self)@
                &&& final(bus)@ == old(bus)@
            },
    {
        proof {
            lemma_step_outcomes::<B>(self@, bus@);
        }
        let (code, prefixed, entry) = self.next_opcode(bus);
        let (opcode_bytes, opcode_cycles, lhs, rhs) = match entry {
            Some(opcode) => (opcode.bytes, opcode.t_cycles, opcode.lhs, opcode.rhs),
            None => {
                return Err(CpuError::UnrecognizedOpcode(code, prefixed));
            },
        };
        let (extra_cycles, skip_pc_increase) = if prefixed {
            self.execute_prefixed(bus, code, &lhs, &rhs)?
        } else {
            self.execute_normal(bus, code, &lhs, &rhs)?
        };
        if !skip_pc_increase {
            let pc = self.state().pc;
            self.set_pc(pc.wrapping_add(opcode_bytes as u16));
        }
        Ok(opcode_cycles as usize + extra_cycles)
    }
}

} // verus!
