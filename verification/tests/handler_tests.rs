use gb_emulator::cpu::{add_offset, operand_error, Cpu, CpuState, DataType, Direction, JumpCondition, StoreLoadModifier};
use gb_emulator::errors::CpuError;
use gb_emulator::memory::{Bus, RawBus};
use gb_emulator::opcodes::{AddressingMode, Register};
use gb_emulator::registers::Registers;

fn cpu_with(reg: Registers, sp: u16, pc: u16) -> Cpu {
    let mut cpu = Cpu::new();
    cpu.set_state(&CpuState { reg, sp, pc, ime: false });
    cpu
}

fn zero() -> Registers {
    Registers::new()
}

#[test]
fn carry_tracking_addition() {
    assert_eq!(Cpu::carry_track_add_u8(0x0F, 0x01), (0x10, true, false));
    assert_eq!(Cpu::carry_track_add_u8(0xFF, 0x01), (0x00, true, true));
    assert_eq!(Cpu::carry_track_add_u8(0xF0, 0x10), (0x00, false, true));
    assert_eq!(Cpu::carry_track_add_u8(0x12, 0x34), (0x46, false, false));
    assert_eq!(Cpu::carry_track_add_u8(0x08, 0x08), (0x10, true, false));
}

#[test]
fn borrow_tracking_subtraction() {
    assert_eq!(Cpu::carry_track_sub_u8(0x10, 0x01), (0x0F, true, false));
    assert_eq!(Cpu::carry_track_sub_u8(0x00, 0x01), (0xFF, true, true));
    assert_eq!(Cpu::carry_track_sub_u8(0x01, 0x01), (0x00, false, false));
    assert_eq!(Cpu::carry_track_sub_u8(0x20, 0x30), (0xF0, false, true));
}

#[test]
fn operands_resolve_by_their_mode() {
    let reg = Registers { a: 1, b: 2, c: 3, d: 4, e: 5, f: 0x60, h: 7, l: 8 };
    let cpu = cpu_with(reg, 0xABCD, 0x0100);
    let mut bus = RawBus::new();
    bus.write_u8(0x0101, 0x85);
    bus.write_u8(0x0102, 0x12);
    let data = |mode| cpu.get_data(&bus, &mode);
    assert_eq!(data(AddressingMode::ImmediateRegister(Register::A)), DataType::ValueU8(1));
    assert_eq!(data(AddressingMode::ImmediateRegister(Register::L)), DataType::ValueU8(8));
    assert_eq!(data(AddressingMode::ImmediateRegister(Register::AF)), DataType::ValueU16(0x0160));
    assert_eq!(data(AddressingMode::ImmediateRegister(Register::BC)), DataType::ValueU16(0x0203));
    assert_eq!(data(AddressingMode::ImmediateRegister(Register::DE)), DataType::ValueU16(0x0405));
    assert_eq!(data(AddressingMode::ImmediateRegister(Register::HL)), DataType::ValueU16(0x0708));
    assert_eq!(data(AddressingMode::ImmediateRegister(Register::SP)), DataType::ValueU16(0xABCD));
    assert_eq!(data(AddressingMode::AddressRegister(Register::BC)), DataType::Address(0x0203));
    assert_eq!(data(AddressingMode::AddressRegister(Register::DE)), DataType::Address(0x0405));
    assert_eq!(data(AddressingMode::AddressRegister(Register::HL)), DataType::Address(0x0708));
    assert_eq!(data(AddressingMode::AddressRegister(Register::A)), DataType::NoData);
    assert_eq!(data(AddressingMode::ImmediateU8), DataType::ValueU8(0x85));
    assert_eq!(data(AddressingMode::ImmediateI8), DataType::ValueI8(-123));
    assert_eq!(data(AddressingMode::ImmediateU16), DataType::ValueU16(0x1285));
    assert_eq!(data(AddressingMode::AddressU16), DataType::Address(0x1285));
    assert_eq!(data(AddressingMode::AddressHRAM), DataType::Address(0xFF85));
    assert_eq!(data(AddressingMode::IoAddressOffset), DataType::Address(0xFF03));
    assert_eq!(data(AddressingMode::NoOperand), DataType::NoData);
}

#[test]
fn immediates_wrap_round_the_end_of_memory() {
    let cpu = cpu_with(zero(), 0, 0xFFFE);
    let mut bus = RawBus::new();
    bus.write_u8(0xFFFF, 0x34);
    bus.write_u8(0x0000, 0x12);
    assert_eq!(cpu.get_data(&bus, &AddressingMode::ImmediateU16), DataType::ValueU16(0x1234));
    let cpu = cpu_with(zero(), 0, 0xFFFF);
    assert_eq!(cpu.get_data(&bus, &AddressingMode::ImmediateU8), DataType::ValueU8(0x12));
}

#[test]
fn offsets_wrap_round_both_ends() {
    assert_eq!(add_offset(0x0100, 5), 0x0105);
    assert_eq!(add_offset(0x0100, -1), 0x00FF);
    assert_eq!(add_offset(0x0000, -128), 0xFF80);
    assert_eq!(add_offset(0xFFFF, 127), 0x007E);
    assert_eq!(add_offset(0x1234, 0), 0x1234);
}

#[test]
fn a_wrong_operand_is_an_opcode_error_and_changes_nothing() {
    let reg = Registers { a: 1, b: 2, c: 3, d: 4, e: 5, f: 0x50, h: 0xC0, l: 0 };
    let before = CpuState { reg, sp: 0x1000, pc: 0x0200, ime: false };
    let error = Err(operand_error());
    assert_eq!(
        operand_error(),
        CpuError::OpcodeError(
            "operand does not resolve to the kind of data that the instruction takes".to_string()
        )
    );
    let mut bus = RawBus::new();
    let pair = AddressingMode::ImmediateRegister(Register::BC);
    let byte = AddressingMode::ImmediateRegister(Register::B);
    let no = AddressingMode::NoOperand;
    let at_bc = AddressingMode::AddressRegister(Register::BC);
    let mut cpu = cpu_with(reg, 0x1000, 0x0200);
    assert_eq!(cpu.increment_u8(&mut bus, &pair), error);
    assert_eq!(cpu.increment_u8(&mut bus, &at_bc), error);
    assert_eq!(cpu.increment_u8(&mut bus, &AddressingMode::ImmediateU8), error);
    assert_eq!(cpu.decrement_u8(&mut bus, &no), error);
    assert_eq!(cpu.increment_u16(&bus, &byte), error);
    assert_eq!(cpu.increment_u16(&bus, &AddressingMode::ImmediateRegister(Register::AF)), error);
    assert_eq!(cpu.decrement_u16(&bus, &AddressingMode::ImmediateU16), error);
    assert_eq!(cpu.add_a_u8(&bus, &pair), error);
    assert_eq!(cpu.adc(&bus, &no), error);
    assert_eq!(cpu.sub_a(&bus, &pair, true), error);
    assert_eq!(cpu.sbc(&bus, &AddressingMode::ImmediateI8), error);
    assert_eq!(cpu.and(&bus, &pair), error);
    assert_eq!(cpu.xor_with_a(&bus, &AddressingMode::ImmediateU16), error);
    assert_eq!(cpu.or_with_a(&bus, &no), error);
    assert_eq!(cpu.add_hl_u16(&bus, &byte), error);
    assert_eq!(cpu.add_sp_e8(&bus, &AddressingMode::ImmediateU8), error);
    assert_eq!(cpu.ld_hl_sp_e8(&bus, &byte), error);
    assert_eq!(cpu.rotate(&mut bus, &pair, Direction::Left, true, false), error);
    assert_eq!(cpu.rotate(&mut bus, &AddressingMode::ImmediateU8, Direction::Left, true, false), error);
    assert_eq!(cpu.shift(&mut bus, &no, Direction::Right, true), error);
    assert_eq!(cpu.swap(&mut bus, &AddressingMode::AddressU16), error);
    assert_eq!(cpu.check_bit(&bus, 3, &pair), error);
    assert_eq!(cpu.set_bit(&mut bus, 3, &at_bc), error);
    assert_eq!(cpu.reset_bit(&mut bus, 3, &pair), error);
    assert_eq!(cpu.rel_jump(&bus, &AddressingMode::ImmediateU8, None), Err(operand_error()));
    assert_eq!(cpu.abs_jump(&bus, &byte, None), Err(operand_error()));
    assert_eq!(cpu.call(&mut bus, &AddressingMode::ImmediateU16, None), Err(operand_error()));
    assert_eq!(cpu.push_stack_instr(&mut bus, &byte), error);
    assert_eq!(cpu.pop_stack_instr(&bus, &AddressingMode::ImmediateRegister(Register::SP)), error);
    assert_eq!(cpu.pop_stack_instr(&bus, &byte), error);
    assert_eq!(cpu.load_or_store_value(&mut bus, &byte, &pair, None), error);
    assert_eq!(cpu.load_or_store_value(&mut bus, &pair, &byte, None), error);
    assert_eq!(cpu.load_or_store_value(&mut bus, &at_bc, &pair, None), error);
    assert_eq!(cpu.load_or_store_value(&mut bus, &no, &byte, None), error);
    assert_eq!(cpu.load_or_store_value(&mut bus, &AddressingMode::AddressU16, &no, Some(StoreLoadModifier::IncHL)), error);
    assert_eq!(cpu.store_operand(&mut bus, &AddressingMode::ImmediateU8, 9), error);
    assert_eq!(cpu.state(), before);
    for addr in [0x0203u16, 0xC000, 0x0FFF, 0x0FFE, 0x0000] {
        assert_eq!(bus.read_u8(addr), 0);
    }
}

#[test]
fn a_conditional_jump_that_is_not_taken_does_not_look_at_its_operand() {
    let reg = Registers { f: 0x80, ..zero() };
    let mut cpu = cpu_with(reg, 0x1000, 0x0200);
    let mut bus = RawBus::new();
    let no = AddressingMode::NoOperand;
    assert_eq!(cpu.abs_jump(&bus, &no, Some(JumpCondition::NZ)), Ok(0));
    assert_eq!(cpu.call(&mut bus, &no, Some(JumpCondition::NZ)), Ok(0));
    assert_eq!(cpu.abs_jump(&bus, &no, Some(JumpCondition::Z)), Err(operand_error()));
    assert_eq!(cpu.state().pc, 0x0200);
    assert_eq!(cpu.state().sp, 0x1000);
}

#[test]
fn handlers_work_on_memory_operands() {
    let reg = Registers { a: 0x0F, b: 0xC1, c: 0x00, d: 0xC2, e: 0x00, f: 0, h: 0xC0, l: 0 };
    let mut cpu = cpu_with(reg, 0, 0);
    let mut bus = RawBus::new();
    bus.write_u8(0xC100, 0x81);
    bus.write_u8(0xC200, 0xF0);
    let at_bc = AddressingMode::AddressRegister(Register::BC);
    let at_de = AddressingMode::AddressRegister(Register::DE);
    assert_eq!(cpu.rotate(&mut bus, &at_bc, Direction::Left, true, false), Ok(()));
    assert_eq!(bus.read_u8(0xC100), 0x03);
    assert_eq!(cpu.state().reg.f, 0x10);
    assert_eq!(cpu.swap(&mut bus, &at_de), Ok(()));
    assert_eq!(bus.read_u8(0xC200), 0x0F);
    assert_eq!(cpu.state().reg.f, 0x00);
    assert_eq!(cpu.add_a_u8(&bus, &at_de), Ok(()));
    assert_eq!(cpu.state().reg.a, 0x1E);
    assert_eq!(cpu.state().reg.f, 0x20);
    assert_eq!(cpu.read_operand(&bus, &at_bc), Some(0x03));
    assert_eq!(cpu.read_operand(&bus, &AddressingMode::ImmediateRegister(Register::HL)), None);
    assert_eq!(cpu.store_operand(&mut bus, &at_bc, 0x44), Ok(()));
    assert_eq!(bus.read_u8(0xC100), 0x44);
    assert!(cpu.store_u16(&Register::SP, 0x1234));
    assert!(!cpu.store_u16(&Register::AF, 0x1234));
    assert_eq!(cpu.state().sp, 0x1234);
}

#[test]
fn accessors_of_the_processor() {
    let mut cpu = Cpu::new();
    let state = CpuState {
        reg: Registers { a: 1, b: 2, c: 3, d: 4, e: 5, f: 0x60, h: 7, l: 8 },
        sp: 0x1111,
        pc: 0x2222,
        ime: true,
    };
    cpu.set_state(&state);
    assert_eq!(cpu.state(), state);
    assert_eq!(cpu.get_registers(), state.reg);
    assert_eq!(cpu.get_state(), (1, 2, 3, 4, 5, 0x60, 7, 8, 0x1111, 0x2222));
    cpu.set_pc(0x3333);
    cpu.set_ime(false);
    cpu.load_registers(Registers::new());
    assert_eq!(
        cpu.state(),
        CpuState { reg: Registers::new(), sp: 0x1111, pc: 0x3333, ime: false }
    );
    assert!(cpu.condition_holds(None));
    assert!(cpu.condition_holds(Some(JumpCondition::NZ)));
    assert!(!cpu.condition_holds(Some(JumpCondition::Z)));
    assert!(cpu.condition_holds(Some(JumpCondition::NC)));
    assert!(!cpu.condition_holds(Some(JumpCondition::C)));
    let bus = RawBus::new();
    let (code, prefixed, entry) = cpu.next_opcode(&bus);
    assert_eq!((code, prefixed), (0x00, false));
    assert_eq!(entry.unwrap().mnemonic, "NOP");
}
