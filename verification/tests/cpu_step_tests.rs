use gb_emulator::cpu::{Cpu, CpuState};
use gb_emulator::errors::CpuError;
use gb_emulator::memory::{Bus, RawBus};
use gb_emulator::registers::Registers;

const Z: u8 = 0x80;
const N: u8 = 0x40;
const H: u8 = 0x20;
const C: u8 = 0x10;

fn regs(a: u8, b: u8, c: u8, d: u8, e: u8, f: u8, h: u8, l: u8) -> Registers {
    Registers { a, b, c, d, e, f, h, l }
}

fn machine(reg: Registers, sp: u16, pc: u16, program: &[u8]) -> (Cpu, RawBus) {
    let mut bus = RawBus::new();
    let mut addr = pc;
    for byte in program {
        bus.write_u8(addr, *byte);
        addr = addr.wrapping_add(1);
    }
    let mut cpu = Cpu::new();
    cpu.set_state(&CpuState { reg, sp, pc, ime: false });
    (cpu, bus)
}

#[test]
fn nop_moves_on_by_one_byte() {
    let (mut cpu, mut bus) = machine(regs(1, 2, 3, 4, 5, 0xF0, 6, 7), 0x1234, 0x0100, &[0x00]);
    assert_eq!(cpu.execute_next_opcode(&mut bus), Ok(4));
    assert_eq!(
        cpu.state(),
        CpuState { reg: regs(1, 2, 3, 4, 5, 0xF0, 6, 7), sp: 0x1234, pc: 0x0101, ime: false }
    );
}

#[test]
fn ld_b_immediate() {
    let (mut cpu, mut bus) = machine(regs(0, 0, 0, 0, 0, 0, 0, 0), 0, 0x0100, &[0x06, 0x42]);
    assert_eq!(cpu.execute_next_opcode(&mut bus), Ok(8));
    assert_eq!(cpu.state().reg.b, 0x42);
    assert_eq!(cpu.state().pc, 0x0102);
}

#[test]
fn inc_on_0x0f_sets_half_carry_and_clears_zero() {
    let (mut cpu, mut bus) = machine(regs(0, 0x0F, 0, 0, 0, Z | N | C, 0, 0), 0, 0, &[0x04]);
    assert_eq!(cpu.execute_next_opcode(&mut bus), Ok(4));
    assert_eq!(cpu.state().reg.b, 0x10);
    assert_eq!(cpu.state().reg.f, H | C);
}

#[test]
fn inc_on_0xff_wraps_and_sets_zero_and_half_carry() {
    let (mut cpu, mut bus) = machine(regs(0xFF, 0, 0, 0, 0, 0, 0, 0), 0, 0, &[0x3C]);
    assert_eq!(cpu.execute_next_opcode(&mut bus), Ok(4));
    assert_eq!(cpu.state().reg.a, 0x00);
    assert_eq!(cpu.state().reg.f, Z | H);
}

#[test]
fn dec_on_0x10_sets_half_carry() {
    let (mut cpu, mut bus) = machine(regs(0, 0x10, 0, 0, 0, 0, 0, 0), 0, 0, &[0x05]);
    assert_eq!(cpu.execute_next_opcode(&mut bus), Ok(4));
    assert_eq!(cpu.state().reg.b, 0x0F);
    assert_eq!(cpu.state().reg.f, N | H);
}

#[test]
fn dec_on_0x01_gives_zero() {
    let (mut cpu, mut bus) = machine(regs(0, 0, 0x01, 0, 0, C, 0, 0), 0, 0, &[0x0D]);
    assert_eq!(cpu.execute_next_opcode(&mut bus), Ok(4));
    assert_eq!(cpu.state().reg.c, 0x00);
    assert_eq!(cpu.state().reg.f, Z | N | C);
}

#[test]
fn inc_at_hl_writes_memory() {
    let (mut cpu, mut bus) = machine(regs(0, 0, 0, 0, 0, 0, 0xC0, 0x00), 0, 0, &[0x34]);
    bus.write_u8(0xC000, 0x7F);
    assert_eq!(cpu.execute_next_opcode(&mut bus), Ok(12));
    assert_eq!(bus.read_u8(0xC000), 0x80);
    assert_eq!(cpu.state().reg.f, H);
}

#[test]
fn inc_and_dec_of_pairs_wrap_without_flags() {
    let (mut cpu, mut bus) =
        machine(regs(0, 0xFF, 0xFF, 0, 0, Z | N | H | C, 0, 0), 0, 0, &[0x03, 0x1B]);
    assert_eq!(cpu.execute_next_opcode(&mut bus), Ok(8));
    assert_eq!(cpu.state().reg.bc(), 0x0000);
    assert_eq!(cpu.execute_next_opcode(&mut bus), Ok(8));
    assert_eq!(cpu.state().reg.de(), 0xFFFF);
    assert_eq!(cpu.state().reg.f, Z | N | H | C);
}

#[test]
fn add_sets_zero_half_carry_and_carry() {
    let (mut cpu, mut bus) = machine(regs(0x3A, 0xC6, 0, 0, 0, N, 0, 0), 0, 0, &[0x80]);
    assert_eq!(cpu.execute_next_opcode(&mut bus), Ok(4));
    assert_eq!(cpu.state().reg.a, 0x00);
    assert_eq!(cpu.state().reg.f, Z | H | C);
}

#[test]
fn adc_adds_the_carry() {
    let (mut cpu, mut bus) = machine(regs(0xE1, 0, 0, 0, 0x0F, C, 0, 0), 0, 0, &[0x8B]);
    assert_eq!(cpu.execute_next_opcode(&mut bus), Ok(4));
    assert_eq!(cpu.state().reg.a, 0xF1);
    assert_eq!(cpu.state().reg.f, H);
}

#[test]
fn sub_of_equal_bytes_gives_zero() {
    let (mut cpu, mut bus) = machine(regs(0x3E, 0, 0, 0, 0x3E, 0, 0, 0), 0, 0, &[0x93]);
    assert_eq!(cpu.execute_next_opcode(&mut bus), Ok(4));
    assert_eq!(cpu.state().reg.a, 0x00);
    assert_eq!(cpu.state().reg.f, Z | N);
}

#[test]
fn sbc_takes_off_the_carry() {
    let (mut cpu, mut bus) = machine(regs(0x3B, 0, 0, 0, 0, C, 0x2A, 0), 0, 0, &[0x9C]);
    assert_eq!(cpu.execute_next_opcode(&mut bus), Ok(4));
    assert_eq!(cpu.state().reg.a, 0x10);
    assert_eq!(cpu.state().reg.f, N);
}

#[test]
fn cp_leaves_the_accumulator_and_sets_flags_as_sub() {
    let (mut compared, mut bus) = machine(regs(0x3C, 0, 0, 0, 0, 0, 0, 0), 0, 0, &[0xFE, 0x40]);
    assert_eq!(compared.execute_next_opcode(&mut bus), Ok(8));
    assert_eq!(compared.state().reg.a, 0x3C);
    assert_eq!(compared.state().reg.f, N | C);
    let (mut subtracted, mut bus) = machine(regs(0x3C, 0, 0, 0, 0, 0, 0, 0), 0, 0, &[0xD6, 0x40]);
    assert_eq!(subtracted.execute_next_opcode(&mut bus), Ok(8));
    assert_eq!(subtracted.state().reg.a, 0xFC);
    assert_eq!(subtracted.state().reg.f, compared.state().reg.f);
}

#[test]
fn and_sets_half_carry() {
    let (mut cpu, mut bus) = machine(regs(0x5A, 0, 0, 0, 0, C, 0, 0x3F), 0, 0, &[0xA5]);
    assert_eq!(cpu.execute_next_opcode(&mut bus), Ok(4));
    assert_eq!(cpu.state().reg.a, 0x1A);
    assert_eq!(cpu.state().reg.f, H);
}

#[test]
fn xor_a_clears_the_accumulator() {
    let (mut cpu, mut bus) = machine(regs(0x77, 0, 0, 0, 0, N | H | C, 0, 0), 0, 0, &[0xAF]);
    assert_eq!(cpu.execute_next_opcode(&mut bus), Ok(4));
    assert_eq!(cpu.state().reg.a, 0x00);
    assert_eq!(cpu.state().reg.f, Z);
}

#[test]
fn or_with_memory_at_hl() {
    let (mut cpu, mut bus) = machine(regs(0x5A, 0, 0, 0, 0, C, 0xD0, 0x10), 0, 0, &[0xB6]);
    bus.write_u8(0xD010, 0x0F);
    assert_eq!(cpu.execute_next_opcode(&mut bus), Ok(8));
    assert_eq!(cpu.state().reg.a, 0x5F);
    assert_eq!(cpu.state().reg.f, 0);
}

#[test]
fn add_hl_sets_half_carry_from_bit_11() {
    let (mut cpu, mut bus) = machine(regs(0, 0x06, 0x05, 0, 0, Z | N, 0x8A, 0x23), 0, 0, &[0x09]);
    assert_eq!(cpu.execute_next_opcode(&mut bus), Ok(8));
    assert_eq!(cpu.state().reg.hl(), 0x9028);
    assert_eq!(cpu.state().reg.f, Z | H);
}

#[test]
fn add_hl_to_itself_carries() {
    let (mut cpu, mut bus) = machine(regs(0, 0, 0, 0, 0, 0, 0x8A, 0x23), 0, 0, &[0x29]);
    assert_eq!(cpu.execute_next_opcode(&mut bus), Ok(8));
    assert_eq!(cpu.state().reg.hl(), 0x1446);
    assert_eq!(cpu.state().reg.f, H | C);
}

#[test]
fn add_sp_takes_a_signed_offset() {
    let (mut cpu, mut bus) = machine(regs(0, 0, 0, 0, 0, Z | N, 0, 0), 0xFFF8, 0, &[0xE8, 0x02]);
    assert_eq!(cpu.execute_next_opcode(&mut bus), Ok(16));
    assert_eq!(cpu.state().sp, 0xFFFA);
    assert_eq!(cpu.state().reg.f, 0);
    let (mut cpu, mut bus) = machine(regs(0, 0, 0, 0, 0, 0, 0, 0), 0x0001, 0, &[0xE8, 0xFF]);
    assert_eq!(cpu.execute_next_opcode(&mut bus), Ok(16));
    assert_eq!(cpu.state().sp, 0x0000);
    assert_eq!(cpu.state().reg.f, H | C);
}

#[test]
fn ld_hl_sp_plus_offset() {
    let (mut cpu, mut bus) = machine(regs(0, 0, 0, 0, 0, 0, 0, 0), 0xFFF8, 0, &[0xF8, 0x02]);
    assert_eq!(cpu.execute_next_opcode(&mut bus), Ok(12));
    assert_eq!(cpu.state().reg.hl(), 0xFFFA);
    assert_eq!(cpu.state().sp, 0xFFF8);
    assert_eq!(cpu.state().reg.f, 0);
}

#[test]
fn daa_after_addition() {
    let (mut cpu, mut bus) = machine(regs(0x7D, 0, 0, 0, 0, 0, 0, 0), 0, 0, &[0x27]);
    assert_eq!(cpu.execute_next_opcode(&mut bus), Ok(4));
    assert_eq!(cpu.state().reg.a, 0x83);
    assert_eq!(cpu.state().reg.f, 0);
    let (mut cpu, mut bus) = machine(regs(0x9A, 0, 0, 0, 0, H, 0, 0), 0, 0, &[0x27]);
    assert_eq!(cpu.execute_next_opcode(&mut bus), Ok(4));
    assert_eq!(cpu.state().reg.a, 0x00);
    assert_eq!(cpu.state().reg.f, Z | C);
}

#[test]
fn daa_after_subtraction() {
    let (mut cpu, mut bus) = machine(regs(0x4B, 0, 0, 0, 0, N | H, 0, 0), 0, 0, &[0x27]);
    assert_eq!(cpu.execute_next_opcode(&mut bus), Ok(4));
    assert_eq!(cpu.state().reg.a, 0x45);
    assert_eq!(cpu.state().reg.f, N);
}

#[test]
fn cpl_scf_ccf() {
    let (mut cpu, mut bus) = machine(regs(0x35, 0, 0, 0, 0, Z, 0, 0), 0, 0, &[0x2F, 0x37, 0x3F]);
    assert_eq!(cpu.execute_next_opcode(&mut bus), Ok(4));
    assert_eq!(cpu.state().reg.a, 0xCA);
    assert_eq!(cpu.state().reg.f, Z | N | H);
    assert_eq!(cpu.execute_next_opcode(&mut bus), Ok(4));
    assert_eq!(cpu.state().reg.f, Z | C);
    assert_eq!(cpu.execute_next_opcode(&mut bus), Ok(4));
    assert_eq!(cpu.state().reg.f, Z);
}

#[test]
fn rlca_rotates_and_leaves_zero_alone() {
    let (mut cpu, mut bus) = machine(regs(0x85, 0, 0, 0, 0, Z | N | H, 0, 0), 0, 0, &[0x07]);
    assert_eq!(cpu.execute_next_opcode(&mut bus), Ok(4));
    assert_eq!(cpu.state().reg.a, 0x0B);
    assert_eq!(cpu.state().reg.f, Z | C);
}

#[test]
fn rla_rotates_through_the_carry() {
    let (mut cpu, mut bus) = machine(regs(0x95, 0, 0, 0, 0, C, 0, 0), 0, 0, &[0x17]);
    assert_eq!(cpu.execute_next_opcode(&mut bus), Ok(4));
    assert_eq!(cpu.state().reg.a, 0x2B);
    assert_eq!(cpu.state().reg.f, C);
}

#[test]
fn rrca_and_rra() {
    let (mut cpu, mut bus) = machine(regs(0x3B, 0, 0, 0, 0, 0, 0, 0), 0, 0, &[0x0F]);
    assert_eq!(cpu.execute_next_opcode(&mut bus), Ok(4));
    assert_eq!(cpu.state().reg.a, 0x9D);
    assert_eq!(cpu.state().reg.f, C);
    let (mut cpu, mut bus) = machine(regs(0x81, 0, 0, 0, 0, 0, 0, 0), 0, 0, &[0x1F]);
    assert_eq!(cpu.execute_next_opcode(&mut bus), Ok(4));
    assert_eq!(cpu.state().reg.a, 0x40);
    assert_eq!(cpu.state().reg.f, C);
}

#[test]
fn eight_rlca_give_the_byte_back() {
    let mut a: u16 = 0;
    while a < 256 {
        let (mut cpu, mut bus) = machine(regs(a as u8, 0, 0, 0, 0, 0, 0, 0), 0, 0, &[0x07; 8]);
        for _ in 0..8 {
            assert_eq!(cpu.execute_next_opcode(&mut bus), Ok(4));
        }
        assert_eq!(cpu.state().reg.a, a as u8);
        assert_eq!(cpu.state().reg.f & C != 0, a & 1 == 1);
        a += 1;
    }
}

#[test]
fn prefixed_rl_c() {
    let (mut cpu, mut bus) = machine(regs(0, 0, 0x80, 0, 0, 0, 0, 0), 0, 0x0200, &[0xCB, 0x11]);
    assert_eq!(cpu.execute_next_opcode(&mut bus), Ok(8));
    assert_eq!(cpu.state().reg.c, 0x00);
    assert_eq!(cpu.state().reg.f, Z | C);
    assert_eq!(cpu.state().pc, 0x0202);
}

#[test]
fn prefixed_shifts() {
    let (mut cpu, mut bus) = machine(regs(0, 0x80, 0, 0x8A, 0x01, 0, 0, 0), 0, 0, &[0xCB, 0x20, 0xCB, 0x2A, 0xCB, 0x3B]);
    assert_eq!(cpu.execute_next_opcode(&mut bus), Ok(8));
    assert_eq!(cpu.state().reg.b, 0x00);
    assert_eq!(cpu.state().reg.f, Z | C);
    assert_eq!(cpu.execute_next_opcode(&mut bus), Ok(8));
    assert_eq!(cpu.state().reg.d, 0xC5);
    assert_eq!(cpu.state().reg.f, 0);
    assert_eq!(cpu.execute_next_opcode(&mut bus), Ok(8));
    assert_eq!(cpu.state().reg.e, 0x00);
    assert_eq!(cpu.state().reg.f, Z | C);
}

#[test]
fn prefixed_swap() {
    let (mut cpu, mut bus) = machine(regs(0xF1, 0, 0, 0, 0, C, 0xC1, 0x00), 0, 0, &[0xCB, 0x37, 0xCB, 0x36]);
    assert_eq!(cpu.execute_next_opcode(&mut bus), Ok(8));
    assert_eq!(cpu.state().reg.a, 0x1F);
    assert_eq!(cpu.state().reg.f, 0);
    assert_eq!(cpu.execute_next_opcode(&mut bus), Ok(16));
    assert_eq!(bus.read_u8(0xC100), 0x00);
    assert_eq!(cpu.state().reg.f, Z);
}

#[test]
fn prefixed_bit_set_res() {
    let (mut cpu, mut bus) = machine(
        regs(0x80, 0, 0, 0, 0, C, 0x80, 0x00),
        0,
        0,
        &[0xCB, 0x7C, 0xCB, 0x65, 0xCB, 0xDF, 0xCB, 0xBE, 0xCB, 0x7E],
    );
    assert_eq!(cpu.execute_next_opcode(&mut bus), Ok(8));
    assert_eq!(cpu.state().reg.f, H | C);
    assert_eq!(cpu.execute_next_opcode(&mut bus), Ok(8));
    assert_eq!(cpu.state().reg.f, Z | H | C);
    assert_eq!(cpu.execute_next_opcode(&mut bus), Ok(8));
    assert_eq!(cpu.state().reg.a, 0x88);
    assert_eq!(cpu.state().reg.f, Z | H | C);
    bus.write_u8(0x8000, 0xFF);
    assert_eq!(cpu.execute_next_opcode(&mut bus), Ok(16));
    assert_eq!(bus.read_u8(0x8000), 0x7F);
    assert_eq!(cpu.execute_next_opcode(&mut bus), Ok(12));
    assert_eq!(cpu.state().reg.f, Z | H | C);
    assert_eq!(cpu.state().pc, 10);
}

#[test]
fn jr_costs_more_only_when_taken() {
    let (mut cpu, mut bus) = machine(regs(0, 0, 0, 0, 0, 0, 0, 0), 0, 0x0100, &[0x20, 0xFE]);
    assert_eq!(cpu.execute_next_opcode(&mut bus), Ok(12));
    assert_eq!(cpu.state().pc, 0x0100);
    let (mut cpu, mut bus) = machine(regs(0, 0, 0, 0, 0, Z, 0, 0), 0, 0x0100, &[0x20, 0xFE]);
    assert_eq!(cpu.execute_next_opcode(&mut bus), Ok(8));
    assert_eq!(cpu.state().pc, 0x0102);
    let (mut cpu, mut bus) = machine(regs(0, 0, 0, 0, 0, 0, 0, 0), 0, 0x0100, &[0x18, 0x05]);
    assert_eq!(cpu.execute_next_opcode(&mut bus), Ok(12));
    assert_eq!(cpu.state().pc, 0x0107);
    let (mut cpu, mut bus) = machine(regs(0, 0, 0, 0, 0, C, 0, 0), 0, 0xFFFE, &[0x38, 0x10]);
    assert_eq!(cpu.execute_next_opcode(&mut bus), Ok(12));
    assert_eq!(cpu.state().pc, 0x0010);
}

#[test]
fn jp_absolute_and_conditional() {
    let (mut cpu, mut bus) = machine(regs(0, 0, 0, 0, 0, 0, 0, 0), 0, 0x0100, &[0xC3, 0x34, 0x12]);
    assert_eq!(cpu.execute_next_opcode(&mut bus), Ok(16));
    assert_eq!(cpu.state().pc, 0x1234);
    let (mut cpu, mut bus) = machine(regs(0, 0, 0, 0, 0, Z, 0, 0), 0, 0x0100, &[0xC2, 0x34, 0x12]);
    assert_eq!(cpu.execute_next_opcode(&mut bus), Ok(12));
    assert_eq!(cpu.state().pc, 0x0103);
    let (mut cpu, mut bus) = machine(regs(0, 0, 0, 0, 0, Z, 0, 0), 0, 0x0100, &[0xCA, 0x34, 0x12]);
    assert_eq!(cpu.execute_next_opcode(&mut bus), Ok(16));
    assert_eq!(cpu.state().pc, 0x1234);
    let (mut cpu, mut bus) = machine(regs(0, 0, 0, 0, 0, 0, 0x40, 0x00), 0, 0x0100, &[0xE9]);
    assert_eq!(cpu.execute_next_opcode(&mut bus), Ok(4));
    assert_eq!(cpu.state().pc, 0x4000);
}

#[test]
fn call_pushes_the_return_address_and_ret_pops_it() {
    let (mut cpu, mut bus) = machine(regs(0, 0, 0, 0, 0, 0, 0, 0), 0xFFFE, 0x0200, &[0xCD, 0x34, 0x12]);
    bus.write_u8(0x1234, 0xC9);
    assert_eq!(cpu.execute_next_opcode(&mut bus), Ok(24));
    assert_eq!(cpu.state().pc, 0x1234);
    assert_eq!(cpu.state().sp, 0xFFFC);
    assert_eq!(bus.read_u8(0xFFFD), 0x02);
    assert_eq!(bus.read_u8(0xFFFC), 0x03);
    assert_eq!(cpu.execute_next_opcode(&mut bus), Ok(16));
    assert_eq!(cpu.state().pc, 0x0203);
    assert_eq!(cpu.state().sp, 0xFFFE);
}

#[test]
fn conditional_call_and_ret_skip_when_the_condition_fails() {
    let (mut cpu, mut bus) = machine(regs(0, 0, 0, 0, 0, C, 0, 0), 0xFFFE, 0x0200, &[0xD4, 0x34, 0x12, 0xD0, 0xD8]);
    assert_eq!(cpu.execute_next_opcode(&mut bus), Ok(12));
    assert_eq!(cpu.state().pc, 0x0203);
    assert_eq!(cpu.state().sp, 0xFFFE);
    assert_eq!(cpu.execute_next_opcode(&mut bus), Ok(8));
    assert_eq!(cpu.state().pc, 0x0204);
    bus.write_u8(0xFFFE, 0x78);
    bus.write_u8(0xFFFF, 0x56);
    assert_eq!(cpu.execute_next_opcode(&mut bus), Ok(20));
    assert_eq!(cpu.state().pc, 0x5678);
    assert_eq!(cpu.state().sp, 0x0000);
}

#[test]
fn conditional_call_taken() {
    let (mut cpu, mut bus) = machine(regs(0, 0, 0, 0, 0, Z, 0, 0), 0xD000, 0x0200, &[0xCC, 0x00, 0x30]);
    assert_eq!(cpu.execute_next_opcode(&mut bus), Ok(24));
    assert_eq!(cpu.state().pc, 0x3000);
    assert_eq!(cpu.state().sp, 0xCFFE);
    assert_eq!(bus.read_u16(0xCFFE), 0x0203);
}

#[test]
fn reti_writes_the_interrupt_enable_byte() {
    let (mut cpu, mut bus) = machine(regs(0, 0, 0, 0, 0, 0, 0, 0), 0xC000, 0x0200, &[0xD9]);
    bus.write_u8(0xC000, 0x50);
    bus.write_u8(0xC001, 0x01);
    assert_eq!(cpu.execute_next_opcode(&mut bus), Ok(16));
    assert_eq!(cpu.state().pc, 0x0150);
    assert_eq!(cpu.state().sp, 0xC002);
    assert_eq!(bus.read_u8(0xFFFF), 0xFF);
}

#[test]
fn push_and_pop() {
    let (mut cpu, mut bus) = machine(regs(0, 0x12, 0x34, 0, 0, 0, 0, 0), 0xFFFE, 0, &[0xC5, 0xF1, 0xD5, 0xE1]);
    assert_eq!(cpu.execute_next_opcode(&mut bus), Ok(16));
    assert_eq!(cpu.state().sp, 0xFFFC);
    assert_eq!(bus.read_u8(0xFFFD), 0x12);
    assert_eq!(bus.read_u8(0xFFFC), 0x34);
    assert_eq!(cpu.execute_next_opcode(&mut bus), Ok(12));
    assert_eq!(cpu.state().reg.a, 0x12);
    assert_eq!(cpu.state().reg.f, 0x30);
    assert_eq!(cpu.state().sp, 0xFFFE);
}

#[test]
fn loads_through_hl_move_hl() {
    let (mut cpu, mut bus) = machine(regs(0x5A, 0, 0, 0, 0, 0, 0x9F, 0xFF), 0, 0, &[0x32, 0x22, 0x2A, 0x3A]);
    assert_eq!(cpu.execute_next_opcode(&mut bus), Ok(8));
    assert_eq!(bus.read_u8(0x9FFF), 0x5A);
    assert_eq!(cpu.state().reg.hl(), 0x9FFE);
    assert_eq!(cpu.execute_next_opcode(&mut bus), Ok(8));
    assert_eq!(bus.read_u8(0x9FFE), 0x5A);
    assert_eq!(cpu.state().reg.hl(), 0x9FFF);
    bus.write_u8(0x9FFF, 0x11);
    assert_eq!(cpu.execute_next_opcode(&mut bus), Ok(8));
    assert_eq!(cpu.state().reg.a, 0x11);
    assert_eq!(cpu.state().reg.hl(), 0xA000);
    bus.write_u8(0xA000, 0x22);
    assert_eq!(cpu.execute_next_opcode(&mut bus), Ok(8));
    assert_eq!(cpu.state().reg.a, 0x22);
    assert_eq!(cpu.state().reg.hl(), 0x9FFF);
}

#[test]
fn loads_through_the_io_page() {
    let (mut cpu, mut bus) = machine(regs(0x77, 0, 0x80, 0, 0, 0, 0, 0), 0, 0, &[0xE0, 0x42, 0xE2, 0xF0, 0x80]);
    assert_eq!(cpu.execute_next_opcode(&mut bus), Ok(12));
    assert_eq!(bus.read_u8(0xFF42), 0x77);
    assert_eq!(cpu.execute_next_opcode(&mut bus), Ok(8));
    assert_eq!(bus.read_u8(0xFF80), 0x77);
    bus.write_u8(0xFF80, 0x99);
    assert_eq!(cpu.execute_next_opcode(&mut bus), Ok(12));
    assert_eq!(cpu.state().reg.a, 0x99);
}

#[test]
fn load_of_sp_to_memory_is_little_endian() {
    let (mut cpu, mut bus) = machine(regs(0, 0, 0, 0, 0, 0, 0, 0), 0xBEEF, 0, &[0x08, 0x00, 0xC1]);
    assert_eq!(cpu.execute_next_opcode(&mut bus), Ok(20));
    assert_eq!(bus.read_u8(0xC100), 0xEF);
    assert_eq!(bus.read_u8(0xC101), 0xBE);
    assert_eq!(cpu.state().pc, 3);
}

#[test]
fn loads_between_registers() {
    let (mut cpu, mut bus) = machine(regs(1, 2, 3, 4, 5, 0, 0xC0, 0x10), 0, 0, &[0x41, 0x57, 0x70, 0x5E, 0x76]);
    assert_eq!(cpu.execute_next_opcode(&mut bus), Ok(4));
    assert_eq!(cpu.state().reg.b, 3);
    assert_eq!(cpu.execute_next_opcode(&mut bus), Ok(4));
    assert_eq!(cpu.state().reg.d, 1);
    assert_eq!(cpu.execute_next_opcode(&mut bus), Ok(8));
    assert_eq!(bus.read_u8(0xC010), 3);
    assert_eq!(cpu.execute_next_opcode(&mut bus), Ok(8));
    assert_eq!(cpu.state().reg.e, 3);
    let before = cpu.state();
    assert_eq!(cpu.execute_next_opcode(&mut bus), Ok(4));
    assert_eq!(cpu.state(), CpuState { pc: 5, ..before });
}

#[test]
fn di_and_ei_store_the_flag() {
    let (mut cpu, mut bus) = machine(regs(0, 0, 0, 0, 0, 0, 0, 0), 0, 0, &[0xF3, 0xFB]);
    assert_eq!(cpu.execute_next_opcode(&mut bus), Ok(4));
    assert!(cpu.state().ime);
    assert_eq!(cpu.execute_next_opcode(&mut bus), Ok(4));
    assert!(!cpu.state().ime);
}

#[test]
fn a_byte_that_is_no_instruction_is_unrecognized() {
    let (mut cpu, mut bus) = machine(regs(1, 2, 3, 4, 5, 0x10, 6, 7), 0x8000, 0x0100, &[0xD3]);
    let before = cpu.state();
    assert_eq!(cpu.execute_next_opcode(&mut bus), Err(CpuError::UnrecognizedOpcode(0xD3, false)));
    assert_eq!(cpu.state(), before);
}

#[test]
fn an_instruction_without_handler_is_not_implemented() {
    for code in [0xC7u8, 0xCF, 0xD7, 0xDF, 0xE7, 0xEF, 0xF7, 0xFF, 0xF2, 0xF9] {
        let (mut cpu, mut bus) = machine(regs(0, 0, 0, 0, 0, 0, 0, 0), 0xFFFE, 0x0100, &[code]);
        let before = cpu.state();
        assert_eq!(
            cpu.execute_next_opcode(&mut bus),
            Err(CpuError::OpcodeNotImplemented(code, false))
        );
        assert_eq!(cpu.state(), before);
        assert_eq!(bus.read_u8(0xFFFD), 0);
    }
}

#[test]
fn every_prefixed_opcode_runs() {
    let mut code: u16 = 0;
    while code < 256 {
        let (mut cpu, mut bus) = machine(regs(1, 2, 3, 4, 5, 0, 0xC0, 0), 0, 0, &[0xCB, code as u8]);
        let cycles = cpu.execute_next_opcode(&mut bus).unwrap();
        assert!(cycles == 8 || cycles == 12 || cycles == 16);
        assert_eq!(cpu.state().pc, 2);
        code += 1;
    }
}

#[test]
fn no_table_entry_rejects_its_operands() {
    let mut code: u16 = 0;
    while code < 256 {
        let (mut cpu, mut bus) = machine(regs(1, 2, 3, 4, 5, 0, 0xC0, 0), 0xD000, 0x0100, &[code as u8, 0x01, 0x02]);
        match cpu.execute_next_opcode(&mut bus) {
            Ok(cycles) => assert!(cycles >= 4 && cycles <= 24),
            Err(CpuError::UnrecognizedOpcode(c, false)) => assert_eq!(c, code as u8),
            Err(CpuError::OpcodeNotImplemented(c, false)) => assert_eq!(c, code as u8),
            Err(e) => panic!("{:?}", e),
        }
        code += 1;
    }
}

#[test]
fn nine_rla_give_the_byte_and_the_carry_back() {
    let mut a: u16 = 0;
    while a < 256 {
        for carry in [0u8, C] {
            let (mut cpu, mut bus) = machine(regs(a as u8, 0, 0, 0, 0, Z | carry, 0, 0), 0, 0, &[0x17; 9]);
            for _ in 0..9 {
                assert_eq!(cpu.execute_next_opcode(&mut bus), Ok(4));
            }
            assert_eq!(cpu.state().reg.a, a as u8);
            assert_eq!(cpu.state().reg.f, Z | carry);
        }
        a += 1;
    }
}

#[test]
fn no_instruction_leaves_bits_in_the_low_nibble_of_f() {
    for prefix in [false, true] {
        let mut code: u16 = 0;
        while code < 256 {
            for f in [0x00u8, 0xF0, 0x50, 0xA0] {
                let program: Vec<u8> = if prefix {
                    vec![0xCB, code as u8, 0x34]
                } else {
                    vec![code as u8, 0x12, 0x34]
                };
                let (mut cpu, mut bus) =
                    machine(regs(0x9B, 0x2F, 0xF0, 0x0F, 0x80, f, 0xC0, 0x01), 0xD000, 0x0100, &program);
                bus.write_u8(0xD000, 0xFF);
                bus.write_u8(0xD001, 0xFF);
                bus.write_u8(0xC001, 0xFF);
                let _ = cpu.execute_next_opcode(&mut bus);
                assert_eq!(cpu.state().reg.f & 0x0F, 0, "opcode {:#04x}", code);
            }
            code += 1;
        }
    }
}

#[test]
fn a_failing_step_changes_neither_the_state_nor_the_memory() {
    let mut code: u16 = 0;
    while code < 256 {
        let (mut cpu, mut bus) = machine(regs(1, 2, 3, 4, 5, 0x60, 0xC0, 7), 0xD000, 0x0100, &[code as u8, 0x10, 0x20]);
        let before = cpu.state();
        let memory = bus.get_range(0x0000..0xFFFF).unwrap();
        if cpu.execute_next_opcode(&mut bus).is_err() {
            assert_eq!(cpu.state(), before);
            assert_eq!(bus.get_range(0x0000..0xFFFF).unwrap(), memory);
        }
        code += 1;
    }
}
