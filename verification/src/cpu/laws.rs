//! What holds of the opcode tables and of every step of the processor.

use vstd::prelude::*;
use crate::bit_ops::{bit_of, with_bit};
use crate::cpu::arithmetic::is_r8_or_hl;
use crate::cpu::bits::rotated_byte;
use crate::cpu::step::{is_low_arithmetic, Dispatch};
use crate::cpu::{CpuState, Direction};
use crate::errors::CpuErrorView;
use crate::memory::laws::{keeps_writes, lemma_adjacent_cells_read_back};
use crate::memory::{mirrored, Bus, DMGBus, DmgState, MemoryBus, MemoryView, RawBus};
use crate::opcodes::{normal_opcode, operand_r8, prefixed_opcode, AddressingMode, Register};
use crate::registers::{high_byte, low_byte, pair, Registers, C_BIT, H_BIT, N_BIT, Z_BIT};

verus! {

/// Every entry of the unprefixed table stands in the slot of its own
/// code, is one to three bytes long and costs between 4 and 24 cycles.
#[verifier::rlimit(60)]
pub proof fn lemma_normal_entries(code: u8)
    ensures
        normal_opcode(code) matches Some(op) ==> {
            &&& op.code == code
            &&& 1 <= op.bytes <= 3
            &&& 4 <= op.t_cycles <= 24
        },
{
    reveal(normal_opcode);
}

/// Every byte has an entry in the prefixed table. The entry stands in the
/// slot of its own code, is two bytes long (the prefix included), costs
/// between 8 and 16 cycles, and its operand is an 8-bit register or the
/// memory cell at HL: the left one for the rotates, shifts and swaps, the
/// right one for the bit instructions.
#[verifier::rlimit(60)]
pub proof fn lemma_prefixed_entries(code: u8)
    ensures
        prefixed_opcode(code) matches Some(op) && {
            &&& op.code == code
            &&& op.bytes == 2
            &&& 8 <= op.t_cycles <= 16
            &&& op.lhs == (if code < 0x40 { operand_r8(code % 8) } else { AddressingMode::NoOperand })
            &&& op.rhs == (if code < 0x40 { AddressingMode::NoOperand } else { operand_r8(code % 8) })
        },
{
    reveal(prefixed_opcode);
}

/// An operand that the low three bits of an opcode select can be read
/// and written as a byte.
pub proof fn lemma_operand_r8_fits<B: Bus>(cpu: CpuState, mem: B::V, index: u8, value: u8)
    ensures
        is_r8_or_hl(operand_r8(index)),
        cpu.operand_u8::<B>(mem, operand_r8(index)) is Some,
        cpu.stored_u8::<B>(mem, operand_r8(index), value) is Some,
{
}

/// No prefixed instruction rejects the operands of its table entry.
#[verifier::rlimit(60)]
pub proof fn lemma_prefixed_operands_fit<B: Bus>(cpu: CpuState, mem: B::V, code: u8)
    ensures
        ({
            let op = prefixed_opcode(code).unwrap();
            !(cpu.dispatched_prefixed::<B>(mem, code, op.lhs, op.rhs) is OperandError)
        }),
{
    lemma_prefixed_entries(code);
    reveal(CpuState::dispatched_prefixed);
    let operand = operand_r8(code % 8);
    assert(cpu.operand_u8::<B>(mem, operand) is Some);
    assert(is_r8_or_hl(operand));
    assert forall|value: u8| cpu.stored_u8::<B>(mem, operand, value) is Some by {
        lemma_operand_r8_fits::<B>(cpu, mem, code % 8, value);
    }
}

/// The operands of the entries from 0x40 to 0xBF: the loads between
/// registers take the operands that bits 3 to 5 and bits 0 to 2 of the
/// opcode select, the arithmetic takes the accumulator and the operand
/// that bits 0 to 2 select.
#[verifier::rlimit(60)]
pub proof fn lemma_regular_entries(code: u8)
    requires
        0x40 <= code <= 0xbf,
        code != 0x76,
    ensures
        normal_opcode(code) matches Some(op) && {
            &&& code < 0x80 ==> op.lhs == operand_r8(((code - 0x40) / 8) as u8)
            &&& code >= 0x80 ==> op.lhs == AddressingMode::ImmediateRegister(Register::A)
            &&& op.rhs == operand_r8(code % 8)
        },
{
    reveal(normal_opcode);
}

/// No arithmetic instruction below 0x40 rejects the operands of its
/// table entry.
#[verifier::rlimit(60)]
proof fn lemma_low_arithmetic_operands_fit<B: Bus>(cpu: CpuState, mem: B::V, code: u8)
    requires
        code < 0x40,
        is_low_arithmetic(code),
    ensures
        ({
            let op = normal_opcode(code).unwrap();
            normal_opcode(code) is Some && !(cpu.dispatched_low_arithmetic::<B>(
                mem,
                code,
                op.lhs,
                op.rhs,
            ) is OperandError)
        }),
{
    reveal(normal_opcode);
    reveal(CpuState::dispatched_low_arithmetic);
}

/// No load or jump below 0x40 rejects the operands of its table entry.
#[verifier::rlimit(60)]
proof fn lemma_low_moves_operands_fit<B: Bus>(cpu: CpuState, mem: B::V, code: u8)
    requires
        code < 0x40,
        !is_low_arithmetic(code),
    ensures
        ({
            let op = normal_opcode(code).unwrap();
            normal_opcode(code) is Some && !(cpu.dispatched_low_moves::<B>(
                mem,
                code,
                op.lhs,
                op.rhs,
            ) is OperandError)
        }),
{
    reveal(normal_opcode);
    reveal(CpuState::dispatched_low_moves);
}

/// No instruction from 0xC0 on rejects the operands of its table entry.
#[verifier::rlimit(60)]
proof fn lemma_high_operands_fit<B: Bus>(cpu: CpuState, mem: B::V, code: u8)
    requires
        code >= 0xc0,
    ensures
        normal_opcode(code) matches Some(op) ==> !(cpu.dispatched_high::<B>(
            mem,
            code,
            op.lhs,
            op.rhs,
        ) is OperandError),
{
    reveal(normal_opcode);
    reveal(CpuState::dispatched_high);
}

/// No unprefixed instruction rejects the operands of its table entry.
#[verifier::rlimit(60)]
pub proof fn lemma_normal_operands_fit<B: Bus>(cpu: CpuState, mem: B::V, code: u8)
    ensures
        normal_opcode(code) matches Some(op) ==> !(cpu.dispatched_normal::<B>(
            mem,
            code,
            op.lhs,
            op.rhs,
        ) is OperandError),
{
    if code < 0x40 {
        if is_low_arithmetic(code) {
            lemma_low_arithmetic_operands_fit::<B>(cpu, mem, code);
        } else {
            lemma_low_moves_operands_fit::<B>(cpu, mem, code);
        }
    } else if code == 0x76 {
    } else if code < 0xc0 {
        lemma_regular_entries(code);
        let op = normal_opcode(code).unwrap();
        assert(cpu.operand_u8::<B>(mem, op.rhs) is Some) by {
            lemma_operand_r8_fits::<B>(cpu, mem, code % 8, 0);
        }
    } else {
        lemma_high_operands_fit::<B>(cpu, mem, code);
    }
}

/// A step fails only on a byte that is no instruction or on an
/// instruction without a handler: the operands of the table entries suit
/// the handlers that take them. A step that succeeds costs between 4 and
/// 24 cycles.
#[verifier::rlimit(60)]
pub proof fn lemma_step_outcomes<B: Bus>(cpu: CpuState, mem: B::V)
    ensures
        match cpu.stepped::<B>(mem).0 {
            Ok(cycles) => 4 <= cycles <= 24,
            Err(e) => {
                let (code, prefixed) = cpu.next_code::<B>(mem);
                if cpu.next_entry::<B>(mem) is None {
                    e == CpuErrorView::UnrecognizedOpcode(code, prefixed)
                } else {
                    e == CpuErrorView::OpcodeNotImplemented(code, prefixed)
                }
            },
        },
{
    let (code, prefixed) = cpu.next_code::<B>(mem);
    lemma_normal_entries(code);
    lemma_prefixed_entries(code);
    lemma_normal_operands_fit::<B>(cpu, mem, code);
    lemma_prefixed_operands_fit::<B>(cpu, mem, code);
    match cpu.next_entry::<B>(mem) {
        Some(op) => {
            lemma_extra_cycles::<B>(cpu, mem, code, op.lhs, op.rhs);
            lemma_prefixed_extra_cycles::<B>(cpu, mem, code, op.lhs, op.rhs);
        },
        None => {},
    }
}

/// Whether an unprefixed opcode is a jump, a call or a return: JR, JP,
/// CALL, RET and RETI, with or without a condition.
pub open spec fn is_control_flow(code: u8) -> bool {
    ||| code == 0x18 || code == 0x20 || code == 0x28 || code == 0x30 || code == 0x38
    ||| code == 0xc0 || code == 0xc8 || code == 0xd0 || code == 0xd8 || code == 0xc9 || code == 0xd9
    ||| code == 0xc2 || code == 0xca || code == 0xd2 || code == 0xda || code == 0xc3 || code == 0xe9
    ||| code == 0xc4 || code == 0xcc || code == 0xd4 || code == 0xdc || code == 0xcd
}

/// Whether a handler ran as an instruction that is no jump does: it cost
/// no extra cycles and left the program counter to the step.
pub open spec fn ran_plainly<M>(cpu: CpuState, outcome: Dispatch<M>) -> bool {
    outcome matches Dispatch::Done { cpu: after, extra_cycles, jumped, .. } ==> {
        &&& extra_cycles == 0
        &&& !jumped
        &&& after.pc == cpu.pc
    }
}

#[verifier::rlimit(60)]
proof fn lemma_prefixed_runs_plainly<B: Bus>(
    cpu: CpuState,
    mem: B::V,
    code: u8,
    lhs: AddressingMode,
    rhs: AddressingMode,
)
    ensures
        ran_plainly(cpu, cpu.dispatched_prefixed::<B>(mem, code, lhs, rhs)),
{
    reveal(CpuState::dispatched_prefixed);
}

#[verifier::rlimit(60)]
proof fn lemma_low_arithmetic_runs_plainly<B: Bus>(
    cpu: CpuState,
    mem: B::V,
    code: u8,
    lhs: AddressingMode,
    rhs: AddressingMode,
)
    ensures
        ran_plainly(cpu, cpu.dispatched_low_arithmetic::<B>(mem, code, lhs, rhs)),
{
    reveal(CpuState::dispatched_low_arithmetic);
}

/// A load leaves the program counter alone.
proof fn lemma_load_keeps_pc<B: Bus>(
    cpu: CpuState,
    mem: B::V,
    lhs: AddressingMode,
    rhs: AddressingMode,
)
    ensures
        forall|modifier: Option<crate::cpu::StoreLoadModifier>|
            (#[trigger] cpu.loaded::<B>(mem, lhs, rhs, modifier)) matches Some((after, _))
                ==> after.pc == cpu.pc,
{
}

#[verifier::rlimit(60)]
proof fn lemma_low_moves_run_plainly<B: Bus>(
    cpu: CpuState,
    mem: B::V,
    code: u8,
    lhs: AddressingMode,
    rhs: AddressingMode,
)
    requires
        !is_control_flow(code),
    ensures
        ran_plainly(cpu, cpu.dispatched_low_moves::<B>(mem, code, lhs, rhs)),
{
    reveal(CpuState::dispatched_low_moves);
    lemma_load_keeps_pc::<B>(cpu, mem, lhs, rhs);
}

#[verifier::rlimit(60)]
proof fn lemma_high_runs_plainly<B: Bus>(
    cpu: CpuState,
    mem: B::V,
    code: u8,
    lhs: AddressingMode,
    rhs: AddressingMode,
)
    requires
        !is_control_flow(code),
    ensures
        ran_plainly(cpu, cpu.dispatched_high::<B>(mem, code, lhs, rhs)),
{
    reveal(CpuState::dispatched_high);
    lemma_load_keeps_pc::<B>(cpu, mem, lhs, rhs);
}

/// A step of an instruction that is no jump, call or return. It costs
/// the cycles of its table entry and no more; the program counter moves
/// on by the length of the entry; and the registers, the flags, the
/// stack pointer and the memory are what the handler of the instruction
/// leaves of the state and the memory before the step.
#[verifier::rlimit(60)]
pub proof fn lemma_step_of_plain_instruction<B: Bus>(cpu: CpuState, mem: B::V)
    requires
        cpu.next_code::<B>(mem).1 || !is_control_flow(cpu.next_code::<B>(mem).0),
    ensures
        ({
            let (code, prefixed) = cpu.next_code::<B>(mem);
            match cpu.next_entry::<B>(mem) {
                Some(op) => match (if prefixed {
                    cpu.dispatched_prefixed::<B>(mem, code, op.lhs, op.rhs)
                } else {
                    cpu.dispatched_normal::<B>(mem, code, op.lhs, op.rhs)
                }) {
                    Dispatch::Done { cpu: after, mem: after_mem, .. } => {
                        &&& after.pc == cpu.pc
                        &&& cpu.stepped::<B>(mem) == (
                            Ok::<usize, CpuErrorView>(op.t_cycles as usize),
                            CpuState { pc: cpu.pc.wrapping_add(op.bytes as u16), ..after },
                            after_mem,
                        )
                    },
                    _ => cpu.stepped::<B>(mem).0 is Err,
                },
                None => cpu.stepped::<B>(mem).0 is Err,
            }
        }),
{
    let (code, prefixed) = cpu.next_code::<B>(mem);
    match cpu.next_entry::<B>(mem) {
        Some(op) => {
            lemma_prefixed_runs_plainly::<B>(cpu, mem, code, op.lhs, op.rhs);
            lemma_low_arithmetic_runs_plainly::<B>(cpu, mem, code, op.lhs, op.rhs);
            if !is_control_flow(code) {
                lemma_low_moves_run_plainly::<B>(cpu, mem, code, op.lhs, op.rhs);
                lemma_high_runs_plainly::<B>(cpu, mem, code, op.lhs, op.rhs);
            }
            lemma_load_keeps_pc::<B>(cpu, mem, op.lhs, op.rhs);
        },
        None => {},
    }
}

/// No prefixed opcode is without a handler, and none costs extra
/// cycles.
#[verifier::rlimit(60)]
proof fn lemma_prefixed_extra_cycles<B: Bus>(
    cpu: CpuState,
    mem: B::V,
    code: u8,
    lhs: AddressingMode,
    rhs: AddressingMode,
)
    ensures
        match cpu.dispatched_prefixed::<B>(mem, code, lhs, rhs) {
            Dispatch::Done { extra_cycles, .. } => extra_cycles == 0,
            Dispatch::OperandError => true,
            Dispatch::NotImplemented => false,
        },
{
    reveal(CpuState::dispatched_prefixed);
}

#[verifier::rlimit(60)]

proof fn lemma_low_arithmetic_extra_cycles<B: Bus>(
    cpu: CpuState,
    mem: B::V,
    code: u8,
    lhs: AddressingMode,
    rhs: AddressingMode,
)
    ensures
        cpu.dispatched_low_arithmetic::<B>(mem, code, lhs, rhs) matches Dispatch::Done {
            extra_cycles,
            ..
        } ==> extra_cycles == 0,
{
    reveal(CpuState::dispatched_low_arithmetic);
}

#[verifier::rlimit(60)]

proof fn lemma_low_moves_extra_cycles<B: Bus>(
    cpu: CpuState,
    mem: B::V,
    code: u8,
    lhs: AddressingMode,
    rhs: AddressingMode,
)
    ensures
        cpu.dispatched_low_moves::<B>(mem, code, lhs, rhs) matches Dispatch::Done {
            extra_cycles,
            ..
        } ==> extra_cycles <= 4 && (normal_opcode(code) matches Some(op) ==> op.t_cycles
            + extra_cycles <= 24),
{
    reveal(CpuState::dispatched_low_moves);
    reveal(normal_opcode);
}

#[verifier::rlimit(60)]

proof fn lemma_high_extra_cycles<B: Bus>(
    cpu: CpuState,
    mem: B::V,
    code: u8,
    lhs: AddressingMode,
    rhs: AddressingMode,
)
    ensures
        cpu.dispatched_high::<B>(mem, code, lhs, rhs) matches Dispatch::Done {
            extra_cycles,
            ..
        } ==> extra_cycles <= 12 && (normal_opcode(code) matches Some(op) ==> op.t_cycles
            + extra_cycles <= 24),
{
    reveal(CpuState::dispatched_high);
    reveal(normal_opcode);
}

/// No handler costs more than 12 extra cycles, and none that costs extra
/// cycles brings the cost of its instruction above 24.
proof fn lemma_extra_cycles<B: Bus>(
    cpu: CpuState,
    mem: B::V,
    code: u8,
    lhs: AddressingMode,
    rhs: AddressingMode,
)
    ensures
        cpu.dispatched_normal::<B>(mem, code, lhs, rhs) matches Dispatch::Done {
            extra_cycles,
            ..
        } ==> extra_cycles <= 12 && (normal_opcode(code) matches Some(op) ==> op.t_cycles
            + extra_cycles <= 24),
{
    lemma_normal_entries(code);
    lemma_low_arithmetic_extra_cycles::<B>(cpu, mem, code, lhs, rhs);
    lemma_low_moves_extra_cycles::<B>(cpu, mem, code, lhs, rhs);
    lemma_high_extra_cycles::<B>(cpu, mem, code, lhs, rhs);
}

/// A word is the pair of its high and its low byte.
pub proof fn lemma_pair_of_bytes(value: u16)
    by (bit_vector)
    ensures
        pair(high_byte(value), low_byte(value)) == value,
{
}

/// Whether two cells read back what is written to them: after a write
/// to `first` and then a write to `second`, a read of each returns the
/// byte that was written to it.
pub open spec fn read_back<B: Bus>(mem: B::V, first: u16, second: u16) -> bool {
    forall|a: u8, b: u8|
        {
            let after = #[trigger] B::poke(B::poke(mem, first, a), second, b);
            B::peek(after, first) == a && B::peek(after, second) == b
        }
}

/// Stack round trip: where the two cells below the stack pointer read
/// back what is written to them, a push followed by a pop gives the
/// pushed word back and leaves the stack pointer where it was.
pub proof fn lemma_push_then_pop<B: Bus>(cpu: CpuState, mem: B::V, value: u16)
    requires
        read_back::<B>(mem, cpu.sp.wrapping_sub(1), cpu.sp.wrapping_sub(2)),
    ensures
        ({
            let (pushed, mem) = cpu.pushed::<B>(mem, value);
            pushed.popped::<B>(mem) == (cpu, value)
        }),
{
    lemma_pair_of_bytes(value);
    let sp1 = cpu.sp.wrapping_sub(1);
    let sp2 = cpu.sp.wrapping_sub(2);
    let after = B::poke(B::poke(mem, sp1, high_byte(value)), sp2, low_byte(value));
    assert(B::peek(after, sp1) == high_byte(value) && B::peek(after, sp2) == low_byte(value));
}

/// Stack round trip on a flat bus: for every word and every stack
/// pointer, a push followed by a pop gives the word back and leaves the
/// stack pointer where it was.
pub proof fn lemma_push_then_pop_on_flat_bus(cpu: CpuState, mem: Map<u16, u8>, value: u16)
    ensures
        ({
            let (pushed, mem) = cpu.pushed::<RawBus>(mem, value);
            pushed.popped::<RawBus>(mem) == (cpu, value)
        }),
{
    lemma_push_then_pop::<RawBus>(cpu, mem, value);
}

/// Stack round trip on the console's bus: where the two cells below the
/// stack pointer keep what is written to them, which all do but the
/// ROM, the gap at 0xFEA0 and the divider, a push followed by a pop
/// gives the word back and leaves the stack pointer where it was.
pub proof fn lemma_push_then_pop_on_console_bus(cpu: CpuState, mem: DmgState, value: u16)
    requires
        mem.wf(),
        keeps_writes(cpu.sp.wrapping_sub(1)),
        keeps_writes(cpu.sp.wrapping_sub(2)),
    ensures
        ({
            let (pushed, mem) = cpu.pushed::<DMGBus>(mem, value);
            pushed.popped::<DMGBus>(mem) == (cpu, value)
        }),
{
    lemma_adjacent_cells_read_back(mem, cpu.sp.wrapping_sub(1));
    lemma_push_then_pop::<DMGBus>(cpu, mem, value);
}

/// Stack round trip on a sized memory: where the two cells below the
/// stack pointer lie within the memory, a push followed by a pop gives
/// the word back and leaves the stack pointer where it was.
pub proof fn lemma_push_then_pop_on_sized_memory(cpu: CpuState, mem: MemoryView, value: u16)
    requires
        mirrored(cpu.sp.wrapping_sub(1)) < mem.bytes.len(),
        mirrored(cpu.sp.wrapping_sub(2)) < mem.bytes.len(),
    ensures
        ({
            let (pushed, mem) = cpu.pushed::<MemoryBus>(mem, value);
            pushed.popped::<MemoryBus>(mem) == (cpu, value)
        }),
{
    lemma_push_then_pop::<MemoryBus>(cpu, mem, value);
}

/// CP sets the flags as SUB does and leaves the accumulator alone; no
/// other register differs between the two.
pub proof fn lemma_cp_is_sub_without_store<B: Bus>(cpu: CpuState, mem: B::V, rhs: AddressingMode)
    ensures
        match (
            cpu.subtracted_from_a::<B>(mem, rhs, false),
            cpu.subtracted_from_a::<B>(mem, rhs, true),
        ) {
            (Some(compared), Some(subtracted)) => {
                &&& compared.reg.a == cpu.reg.a
                &&& compared.reg.f == subtracted.reg.f
                &&& compared == (CpuState {
                    reg: Registers { a: cpu.reg.a, ..subtracted.reg },
                    ..subtracted
                })
            },
            (None, None) => true,
            _ => false,
        },
{
}

/// The state after RLCA was run `times` times. RLCA rotates the
/// accumulator to the left, not through the carry.
pub open spec fn rlca_times<B: Bus>(cpu: CpuState, mem: B::V, times: nat) -> CpuState
    decreases times,
{
    if times == 0 {
        cpu
    } else {
        match rlca_times::<B>(cpu, mem, (times - 1) as nat).rotated::<B>(
            mem,
            AddressingMode::ImmediateRegister(Register::A),
            Direction::Left,
            false,
            false,
        ) {
            Some((rotated, _)) => rotated,
            None => cpu,
        }
    }
}

/// A byte comes back after eight rotations to the left, and the bit that
/// the eighth rotation moves out is the byte's bit 0.
proof fn lemma_rotate_left_eight_times(a: u8)
    by (bit_vector)
    ensures
        ({
            let a1 = (a << 1) | ((a & (1u8 << 7u8)) >> 7u8);
            let a2 = (a1 << 1) | ((a1 & (1u8 << 7u8)) >> 7u8);
            let a3 = (a2 << 1) | ((a2 & (1u8 << 7u8)) >> 7u8);
            let a4 = (a3 << 1) | ((a3 & (1u8 << 7u8)) >> 7u8);
            let a5 = (a4 << 1) | ((a4 & (1u8 << 7u8)) >> 7u8);
            let a6 = (a5 << 1) | ((a5 & (1u8 << 7u8)) >> 7u8);
            let a7 = (a6 << 1) | ((a6 & (1u8 << 7u8)) >> 7u8);
            let a8 = (a7 << 1) | ((a7 & (1u8 << 7u8)) >> 7u8);
            a8 == a && ((a7 & (1u8 << 7u8)) >> 7u8) == ((a & (1u8 << 0u8)) >> 0u8)
        }),
{
}

/// One RLCA: the accumulator is rotated, N and H are cleared, the carry
/// is the bit that left, and nothing else changes.
#[verifier::rlimit(60)]
proof fn lemma_rlca_once<B: Bus>(cpu: CpuState, mem: B::V)
    ensures
        ({
            let (value, out) = rotated_byte(cpu.reg.a, Direction::Left, false, cpu.carry_bit());
            let after = rlca_times::<B>(cpu, mem, 1);
            &&& after == (CpuState { reg: Registers { a: value, f: after.reg.f, ..cpu.reg }, ..cpu })
            &&& after.reg.flag(C_BIT) == (out == 1)
            &&& after.reg.flag(Z_BIT) == cpu.reg.flag(Z_BIT)
            &&& !after.reg.flag(N_BIT)
            &&& !after.reg.flag(H_BIT)
            &&& out == bit_of(cpu.reg.a, 7)
            &&& value == (cpu.reg.a << 1) | bit_of(cpu.reg.a, 7)
        }),
{
    reveal_with_fuel(rlca_times, 2);
    let n = with_bit(cpu.reg.f, N_BIT, false);
    let h = with_bit(n, H_BIT, false);
    let out = bit_of(cpu.reg.a, 7);
    crate::bit_ops::lemma_with_bit_reads_back(h, C_BIT, Z_BIT, out == 1);
    crate::bit_ops::lemma_with_bit_reads_back(h, C_BIT, N_BIT, out == 1);
    crate::bit_ops::lemma_with_bit_reads_back(h, C_BIT, H_BIT, out == 1);
    crate::bit_ops::lemma_with_bit_reads_back(n, H_BIT, Z_BIT, false);
    crate::bit_ops::lemma_with_bit_reads_back(n, H_BIT, N_BIT, false);
    crate::bit_ops::lemma_with_bit_reads_back(cpu.reg.f, N_BIT, Z_BIT, false);
}

/// RLCA after `times` RLCAs is `times + 1` RLCAs.
proof fn lemma_rlca_next<B: Bus>(cpu: CpuState, mem: B::V, times: nat)
    ensures
        rlca_times::<B>(cpu, mem, times + 1) == rlca_times::<B>(
            rlca_times::<B>(cpu, mem, times),
            mem,
            1,
        ),
{
    reveal_with_fuel(rlca_times, 2);
    lemma_rlca_once::<B>(rlca_times::<B>(cpu, mem, times), mem);
}

/// Eight RLCAs give the accumulator back. They leave bit 0 of the
/// accumulator in the carry, clear N and H, and change no other register
/// and no other flag.
#[verifier::rlimit(60)]
pub proof fn lemma_rlca_eight_times<B: Bus>(cpu: CpuState, mem: B::V)
    ensures
        ({
            let after = rlca_times::<B>(cpu, mem, 8);
            &&& after.reg.a == cpu.reg.a
            &&& after == (CpuState { reg: Registers { f: after.reg.f, ..cpu.reg }, ..cpu })
            &&& after.reg.flag(C_BIT) == (bit_of(cpu.reg.a, 0) == 1)
            &&& after.reg.flag(Z_BIT) == cpu.reg.flag(Z_BIT)
            &&& !after.reg.flag(N_BIT)
            &&& !after.reg.flag(H_BIT)
        }),
{
    let s0 = cpu;
    let s1 = rlca_times::<B>(cpu, mem, 1);
    let s2 = rlca_times::<B>(cpu, mem, 2);
    let s3 = rlca_times::<B>(cpu, mem, 3);
    let s4 = rlca_times::<B>(cpu, mem, 4);
    let s5 = rlca_times::<B>(cpu, mem, 5);
    let s6 = rlca_times::<B>(cpu, mem, 6);
    let s7 = rlca_times::<B>(cpu, mem, 7);
    lemma_rlca_once::<B>(s0, mem);
    lemma_rlca_next::<B>(cpu, mem, 1);
    lemma_rlca_once::<B>(s1, mem);
    lemma_rlca_next::<B>(cpu, mem, 2);
    lemma_rlca_once::<B>(s2, mem);
    lemma_rlca_next::<B>(cpu, mem, 3);
    lemma_rlca_once::<B>(s3, mem);
    lemma_rlca_next::<B>(cpu, mem, 4);
    lemma_rlca_once::<B>(s4, mem);
    lemma_rlca_next::<B>(cpu, mem, 5);
    lemma_rlca_once::<B>(s5, mem);
    lemma_rlca_next::<B>(cpu, mem, 6);
    lemma_rlca_once::<B>(s6, mem);
    lemma_rlca_next::<B>(cpu, mem, 7);
    lemma_rlca_once::<B>(s7, mem);
    lemma_rotate_left_eight_times(cpu.reg.a);
}

/// Rotate closure: where the carry holds bit 0 of the accumulator, eight
/// RLCAs give back both the accumulator and the carry.
pub proof fn lemma_rlca_closure<B: Bus>(cpu: CpuState, mem: B::V)
    requires
        cpu.reg.flag(C_BIT) == (bit_of(cpu.reg.a, 0) == 1),
    ensures
        rlca_times::<B>(cpu, mem, 8).reg.a == cpu.reg.a,
        rlca_times::<B>(cpu, mem, 8).reg.flag(C_BIT) == cpu.reg.flag(C_BIT),
{
    lemma_rlca_eight_times::<B>(cpu, mem);
}

/// The state after RLA was run `times` times. RLA rotates the
/// accumulator to the left through the carry.
pub open spec fn rla_times<B: Bus>(cpu: CpuState, mem: B::V, times: nat) -> CpuState
    decreases times,
{
    if times == 0 {
        cpu
    } else {
        match rla_times::<B>(cpu, mem, (times - 1) as nat).rotated::<B>(
            mem,
            AddressingMode::ImmediateRegister(Register::A),
            Direction::Left,
            false,
            true,
        ) {
            Some((rotated, _)) => rotated,
            None => cpu,
        }
    }
}

/// A byte and a carry bit come back after nine rotations to the left
/// through the carry.
proof fn lemma_rotate_through_carry_nine_times(a: u8, c: u8)
    by (bit_vector)
    requires
        c == 0 || c == 1,
    ensures
        ({
            let a1 = (a << 1) | c;
            let c1 = (a & (1u8 << 7u8)) >> 7u8;
            let a2 = (a1 << 1) | c1;
            let c2 = (a1 & (1u8 << 7u8)) >> 7u8;
            let a3 = (a2 << 1) | c2;
            let c3 = (a2 & (1u8 << 7u8)) >> 7u8;
            let a4 = (a3 << 1) | c3;
            let c4 = (a3 & (1u8 << 7u8)) >> 7u8;
            let a5 = (a4 << 1) | c4;
            let c5 = (a4 & (1u8 << 7u8)) >> 7u8;
            let a6 = (a5 << 1) | c5;
            let c6 = (a5 & (1u8 << 7u8)) >> 7u8;
            let a7 = (a6 << 1) | c6;
            let c7 = (a6 & (1u8 << 7u8)) >> 7u8;
            let a8 = (a7 << 1) | c7;
            let c8 = (a7 & (1u8 << 7u8)) >> 7u8;
            let a9 = (a8 << 1) | c8;
            let c9 = (a8 & (1u8 << 7u8)) >> 7u8;
            a9 == a && c9 == c
        }),
{
}

/// One RLA: the accumulator is rotated through the carry, N and H are
/// cleared, the carry is the bit that left, and nothing else changes.
#[verifier::rlimit(60)]
proof fn lemma_rla_once<B: Bus>(cpu: CpuState, mem: B::V)
    ensures
        ({
            let after = rla_times::<B>(cpu, mem, 1);
            &&& after == (CpuState {
                reg: Registers {
                    a: (cpu.reg.a << 1) | cpu.carry_bit(),
                    f: after.reg.f,
                    ..cpu.reg
                },
                ..cpu
            })
            &&& after.carry_bit() == bit_of(cpu.reg.a, 7)
            &&& after.reg.flag(Z_BIT) == cpu.reg.flag(Z_BIT)
            &&& !after.reg.flag(N_BIT)
            &&& !after.reg.flag(H_BIT)
            &&& (cpu.carry_bit() == 0 || cpu.carry_bit() == 1)
        }),
{
    reveal_with_fuel(rla_times, 2);
    let n = with_bit(cpu.reg.f, N_BIT, false);
    let h = with_bit(n, H_BIT, false);
    let out = bit_of(cpu.reg.a, 7);
    crate::bit_ops::lemma_bit_is_binary(cpu.reg.a, 7);
    crate::bit_ops::lemma_bit_is_binary(cpu.reg.f, C_BIT);
    crate::bit_ops::lemma_with_bit_reads_back(h, C_BIT, Z_BIT, out == 1);
    crate::bit_ops::lemma_with_bit_reads_back(h, C_BIT, N_BIT, out == 1);
    crate::bit_ops::lemma_with_bit_reads_back(h, C_BIT, H_BIT, out == 1);
    crate::bit_ops::lemma_with_bit_reads_back(n, H_BIT, Z_BIT, false);
    crate::bit_ops::lemma_with_bit_reads_back(n, H_BIT, N_BIT, false);
    crate::bit_ops::lemma_with_bit_reads_back(cpu.reg.f, N_BIT, Z_BIT, false);
}

/// RLA after `times` RLAs is `times + 1` RLAs.
proof fn lemma_rla_next<B: Bus>(cpu: CpuState, mem: B::V, times: nat)
    ensures
        rla_times::<B>(cpu, mem, times + 1) == rla_times::<B>(rla_times::<B>(cpu, mem, times), mem, 1),
{
    reveal_with_fuel(rla_times, 2);
    lemma_rla_once::<B>(rla_times::<B>(cpu, mem, times), mem);
}

/// Rotate-through-carry closure: the accumulator and the carry together
/// are nine bits, and nine RLAs give both back, whatever they hold. N
/// and H are cleared, and no other register and no other flag changes.
#[verifier::rlimit(60)]
pub proof fn lemma_rla_nine_times<B: Bus>(cpu: CpuState, mem: B::V)
    ensures
        ({
            let after = rla_times::<B>(cpu, mem, 9);
            &&& after.reg.a == cpu.reg.a
            &&& after.reg.flag(C_BIT) == cpu.reg.flag(C_BIT)
            &&& after.reg.flag(Z_BIT) == cpu.reg.flag(Z_BIT)
            &&& !after.reg.flag(N_BIT)
            &&& !after.reg.flag(H_BIT)
            &&& after == (CpuState { reg: Registers { f: after.reg.f, ..cpu.reg }, ..cpu })
        }),
{
    let s1 = rla_times::<B>(cpu, mem, 1);
    let s2 = rla_times::<B>(cpu, mem, 2);
    let s3 = rla_times::<B>(cpu, mem, 3);
    let s4 = rla_times::<B>(cpu, mem, 4);
    let s5 = rla_times::<B>(cpu, mem, 5);
    let s6 = rla_times::<B>(cpu, mem, 6);
    let s7 = rla_times::<B>(cpu, mem, 7);
    let s8 = rla_times::<B>(cpu, mem, 8);
    lemma_rla_once::<B>(cpu, mem);
    lemma_rla_next::<B>(cpu, mem, 1);
    lemma_rla_once::<B>(s1, mem);
    lemma_rla_next::<B>(cpu, mem, 2);
    lemma_rla_once::<B>(s2, mem);
    lemma_rla_next::<B>(cpu, mem, 3);
    lemma_rla_once::<B>(s3, mem);
    lemma_rla_next::<B>(cpu, mem, 4);
    lemma_rla_once::<B>(s4, mem);
    lemma_rla_next::<B>(cpu, mem, 5);
    lemma_rla_once::<B>(s5, mem);
    lemma_rla_next::<B>(cpu, mem, 6);
    lemma_rla_once::<B>(s6, mem);
    lemma_rla_next::<B>(cpu, mem, 7);
    lemma_rla_once::<B>(s7, mem);
    lemma_rla_next::<B>(cpu, mem, 8);
    lemma_rla_once::<B>(s8, mem);
    lemma_rotate_through_carry_nine_times(cpu.reg.a, cpu.carry_bit());
}

/// Forcing one of the four flag bits leaves the low nibble alone.
proof fn lemma_flag_bits_keep_low_nibble(f: u8, bit: u8, on: bool)
    by (bit_vector)
    requires
        4 <= bit < 8,
    ensures
        with_bit(f, bit, on) & 0x0F == f & 0x0F,
{
}

/// The low byte of a word without its low nibble has no low nibble.
proof fn lemma_masked_low_nibble(value: u16)
    by (bit_vector)
    ensures
        ((value & 0xF0) as u8) & 0x0F == 0,
{
}

/// Setting flags leaves no stray bit in the low nibble of F.
pub proof fn lemma_flags_keep_wf()
    ensures
        forall|reg: Registers, z: Option<bool>, n: Option<bool>, h: Option<bool>, c: Option<bool>|
            reg.wf() ==> (#[trigger] reg.with_flags(z, n, h, c)).wf(),
{
    assert forall|reg: Registers, z: Option<bool>, n: Option<bool>, h: Option<bool>, c: Option<bool>|
        reg.wf() implies (#[trigger] reg.with_flags(z, n, h, c)).wf() by {
        let r1 = reg.with_optional_flag(Z_BIT, z);
        let r2 = r1.with_optional_flag(N_BIT, n);
        let r3 = r2.with_optional_flag(H_BIT, h);
        lemma_flag_bits_keep_low_nibble(reg.f, Z_BIT, true);
        lemma_flag_bits_keep_low_nibble(reg.f, Z_BIT, false);
        lemma_flag_bits_keep_low_nibble(r1.f, N_BIT, true);
        lemma_flag_bits_keep_low_nibble(r1.f, N_BIT, false);
        lemma_flag_bits_keep_low_nibble(r2.f, H_BIT, true);
        lemma_flag_bits_keep_low_nibble(r2.f, H_BIT, false);
        lemma_flag_bits_keep_low_nibble(r3.f, C_BIT, true);
        lemma_flag_bits_keep_low_nibble(r3.f, C_BIT, false);
    }
}

#[verifier::rlimit(60)]

proof fn lemma_prefixed_keeps_wf<B: Bus>(
    cpu: CpuState,
    mem: B::V,
    code: u8,
    lhs: AddressingMode,
    rhs: AddressingMode,
)
    requires
        cpu.reg.wf(),
    ensures
        cpu.dispatched_prefixed::<B>(mem, code, lhs, rhs) matches Dispatch::Done { cpu: after, .. }
            ==> after.reg.wf(),
{
    reveal(CpuState::dispatched_prefixed);
    lemma_flags_keep_wf();
}

#[verifier::rlimit(60)]

proof fn lemma_low_arithmetic_keeps_wf<B: Bus>(
    cpu: CpuState,
    mem: B::V,
    code: u8,
    lhs: AddressingMode,
    rhs: AddressingMode,
)
    requires
        cpu.reg.wf(),
    ensures
        cpu.dispatched_low_arithmetic::<B>(mem, code, lhs, rhs) matches Dispatch::Done {
            cpu: after,
            ..
        } ==> after.reg.wf(),
{
    reveal(CpuState::dispatched_low_arithmetic);
    lemma_flags_keep_wf();
}

#[verifier::rlimit(60)]

proof fn lemma_low_moves_keeps_wf<B: Bus>(
    cpu: CpuState,
    mem: B::V,
    code: u8,
    lhs: AddressingMode,
    rhs: AddressingMode,
)
    requires
        cpu.reg.wf(),
    ensures
        cpu.dispatched_low_moves::<B>(mem, code, lhs, rhs) matches Dispatch::Done { cpu: after, .. }
            ==> after.reg.wf(),
{
    reveal(CpuState::dispatched_low_moves);
    lemma_load_keeps_flags::<B>(cpu, mem, lhs, rhs);
}

/// A load leaves F alone.
proof fn lemma_load_keeps_flags<B: Bus>(
    cpu: CpuState,
    mem: B::V,
    lhs: AddressingMode,
    rhs: AddressingMode,
)
    ensures
        forall|modifier: Option<crate::cpu::StoreLoadModifier>|
            (#[trigger] cpu.loaded::<B>(mem, lhs, rhs, modifier)) matches Some((after, _))
                ==> after.reg.f == cpu.reg.f,
{
}

#[verifier::rlimit(60)]

proof fn lemma_high_keeps_wf<B: Bus>(
    cpu: CpuState,
    mem: B::V,
    code: u8,
    lhs: AddressingMode,
    rhs: AddressingMode,
)
    requires
        cpu.reg.wf(),
    ensures
        cpu.dispatched_high::<B>(mem, code, lhs, rhs) matches Dispatch::Done { cpu: after, .. }
            ==> after.reg.wf(),
{
    reveal(CpuState::dispatched_high);
    lemma_flags_keep_wf();
    lemma_load_keeps_flags::<B>(cpu, mem, lhs, rhs);
    lemma_masked_low_nibble(cpu.popped::<B>(mem).1);
}

/// No instruction leaves a stray bit in the low nibble of F: where the
/// nibble is 0 before a step, it is 0 after it.
#[verifier::rlimit(60)]
pub proof fn lemma_step_keeps_flags_wf<B: Bus>(cpu: CpuState, mem: B::V)
    requires
        cpu.reg.wf(),
    ensures
        cpu.stepped::<B>(mem).1.reg.wf(),
{
    let (code, prefixed) = cpu.next_code::<B>(mem);
    match cpu.next_entry::<B>(mem) {
        Some(op) => {
            lemma_prefixed_keeps_wf::<B>(cpu, mem, code, op.lhs, op.rhs);
            lemma_low_arithmetic_keeps_wf::<B>(cpu, mem, code, op.lhs, op.rhs);
            lemma_low_moves_keeps_wf::<B>(cpu, mem, code, op.lhs, op.rhs);
            lemma_high_keeps_wf::<B>(cpu, mem, code, op.lhs, op.rhs);
            lemma_flags_keep_wf();
            lemma_load_keeps_flags::<B>(cpu, mem, op.lhs, op.rhs);
        },
        None => {},
    }
}

} // verus!
