use gb_emulator::bit_ops::BitOps;
use gb_emulator::opcodes::{AddressingMode, Opcode, Register};
use gb_emulator::registers::Registers;

#[test]
fn new_registers_are_zero() {
    assert_eq!(Registers::new(), Registers { a: 0, b: 0, c: 0, d: 0, e: 0, f: 0, h: 0, l: 0 });
}

#[test]
fn pairs_put_the_high_register_first() {
    let mut reg = Registers { a: 0x12, b: 0x34, c: 0x56, d: 0x78, e: 0x9A, f: 0xB0, h: 0xCD, l: 0xEF };
    assert_eq!(reg.af(), 0x12B0);
    assert_eq!(reg.bc(), 0x3456);
    assert_eq!(reg.de(), 0x789A);
    assert_eq!(reg.hl(), 0xCDEF);
    reg.set_bc(0xBEEF);
    assert_eq!((reg.b, reg.c), (0xBE, 0xEF));
    reg.set_de(0x0102);
    assert_eq!((reg.d, reg.e), (0x01, 0x02));
    reg.set_hl(0xFF00);
    assert_eq!((reg.h, reg.l), (0xFF, 0x00));
    reg.set_af(0xABCD);
    assert_eq!((reg.a, reg.f), (0xAB, 0xC0));
}

#[test]
fn flags_sit_in_the_high_nibble() {
    let mut reg = Registers::new();
    reg.set_z_flag();
    assert_eq!(reg.f, 0x80);
    reg.set_n_flag();
    assert_eq!(reg.f, 0xC0);
    reg.set_h_flag();
    assert_eq!(reg.f, 0xE0);
    reg.set_c_flag();
    assert_eq!(reg.f, 0xF0);
    assert_eq!((reg.get_z_flag(), reg.get_n_flag(), reg.get_h_flag(), reg.get_c_flag()), (1, 1, 1, 1));
    assert!(reg.check_z_flag() && reg.check_n_flag() && reg.check_h_flag() && reg.check_c_flag());
    reg.clear_z_flag();
    assert_eq!(reg.f, 0x70);
    reg.clear_h_flag();
    assert_eq!(reg.f, 0x50);
    reg.clear_n_flag();
    assert_eq!(reg.f, 0x10);
    reg.clear_c_flag();
    assert_eq!(reg.f, 0x00);
    assert_eq!((reg.get_z_flag(), reg.get_n_flag(), reg.get_h_flag(), reg.get_c_flag()), (0, 0, 0, 0));
    assert!(!reg.check_z_flag() && !reg.check_n_flag() && !reg.check_h_flag() && !reg.check_c_flag());
}

#[test]
fn bits_are_set_and_cleared() {
    let mut byte: u8 = 0;
    byte.set_bit(0);
    byte.set_bit(7);
    assert_eq!(byte, 0x81);
    byte.set_bit(7);
    assert_eq!(byte, 0x81);
    byte.clear_bit(0);
    assert_eq!(byte, 0x80);
    byte.clear_bit(3);
    assert_eq!(byte, 0x80);
    assert_eq!(byte.get_bit(7), 1);
    assert_eq!(byte.get_bit(6), 0);
}

#[test]
fn tables_have_a_slot_for_every_byte() {
    let normal = Opcode::generate_normal_opcode_map();
    let prefixed = Opcode::generate_prefixed_opcode_map();
    assert_eq!(normal.len(), 256);
    assert_eq!(prefixed.len(), 256);
    assert_eq!(normal.iter().filter(|slot| slot.is_some()).count(), 244);
    assert_eq!(prefixed.iter().filter(|slot| slot.is_some()).count(), 256);
    for code in [0xCBusize, 0xD3, 0xDB, 0xDD, 0xE3, 0xE4, 0xEB, 0xEC, 0xED, 0xF4, 0xFC, 0xFD] {
        assert!(normal[code].is_none());
    }
    for code in 0..256 {
        if let Some(op) = &normal[code] {
            assert_eq!(op.code as usize, code);
            assert!(op.bytes >= 1 && op.bytes <= 3);
            assert!(op.t_cycles >= 4 && op.t_cycles % 4 == 0);
        }
        let op = prefixed[code].as_ref().unwrap();
        assert_eq!(op.code as usize, code);
        assert_eq!(op.bytes, 2);
    }
}

#[test]
fn table_entries() {
    let normal = Opcode::generate_normal_opcode_map();
    let op = normal[0x06].as_ref().unwrap();
    assert_eq!(op.mnemonic, "LD B, n8");
    assert_eq!((op.bytes, op.t_cycles), (2, 8));
    assert_eq!(op.lhs, AddressingMode::ImmediateRegister(Register::B));
    assert_eq!(op.rhs, AddressingMode::ImmediateU8);
    let op = normal[0x4f].as_ref().unwrap();
    assert_eq!(op.mnemonic, "LD C, A");
    assert_eq!((op.bytes, op.t_cycles), (1, 4));
    assert_eq!(op.lhs, AddressingMode::ImmediateRegister(Register::C));
    assert_eq!(op.rhs, AddressingMode::ImmediateRegister(Register::A));
    let op = normal[0x77].as_ref().unwrap();
    assert_eq!(op.mnemonic, "LD [HL], A");
    assert_eq!((op.bytes, op.t_cycles), (1, 8));
    assert_eq!(op.lhs, AddressingMode::AddressRegister(Register::HL));
    let op = normal[0x76].as_ref().unwrap();
    assert_eq!(op.mnemonic, "HALT");
    assert_eq!(op.lhs, AddressingMode::NoOperand);
    let op = normal[0xbe].as_ref().unwrap();
    assert_eq!(op.mnemonic, "CP A, [HL]");
    assert_eq!((op.bytes, op.t_cycles), (1, 8));
    assert_eq!(op.rhs, AddressingMode::AddressRegister(Register::HL));
    let op = normal[0x86].as_ref().unwrap();
    assert_eq!(op.mnemonic, "ADD A, [HL]");
    let op = normal[0xe0].as_ref().unwrap();
    assert_eq!(op.mnemonic, "LDH [a8], A");
    assert_eq!((op.bytes, op.t_cycles), (2, 12));
    assert_eq!(op.lhs, AddressingMode::AddressHRAM);
    let op = normal[0xe2].as_ref().unwrap();
    assert_eq!(op.lhs, AddressingMode::IoAddressOffset);
    let op = normal[0xcd].as_ref().unwrap();
    assert_eq!(op.mnemonic, "CALL a16");
    assert_eq!((op.bytes, op.t_cycles), (3, 24));
    assert_eq!(op.lhs, AddressingMode::AddressU16);
    let op = normal[0x20].as_ref().unwrap();
    assert_eq!(op.mnemonic, "JR NZ, e8");
    assert_eq!(op.rhs, AddressingMode::ImmediateI8);
    let op = normal[0x31].as_ref().unwrap();
    assert_eq!(op.mnemonic, "LD SP, n16");
    assert_eq!(op.rhs, AddressingMode::ImmediateU16);
    assert_eq!(op.lhs, AddressingMode::ImmediateRegister(Register::SP));
    let prefixed = Opcode::generate_prefixed_opcode_map();
    let op = prefixed[0x11].as_ref().unwrap();
    assert_eq!(op.mnemonic, "RL C");
    assert_eq!((op.bytes, op.t_cycles), (2, 8));
    assert_eq!(op.lhs, AddressingMode::ImmediateRegister(Register::C));
    assert_eq!(op.rhs, AddressingMode::NoOperand);
    let op = prefixed[0x7c].as_ref().unwrap();
    assert_eq!(op.mnemonic, "BIT 7, H");
    assert_eq!((op.bytes, op.t_cycles), (2, 8));
    assert_eq!(op.lhs, AddressingMode::NoOperand);
    assert_eq!(op.rhs, AddressingMode::ImmediateRegister(Register::H));
    let op = prefixed[0x7e].as_ref().unwrap();
    assert_eq!(op.mnemonic, "BIT 7, [HL]");
    assert_eq!(op.t_cycles, 12);
    let op = prefixed[0xbe].as_ref().unwrap();
    assert_eq!(op.mnemonic, "RES 7, [HL]");
    assert_eq!(op.t_cycles, 16);
    assert_eq!(op.rhs, AddressingMode::AddressRegister(Register::HL));
    let op = prefixed[0x36].as_ref().unwrap();
    assert_eq!(op.mnemonic, "SWAP [HL]");
    assert_eq!(op.t_cycles, 16);
    let op = prefixed[0xff].as_ref().unwrap();
    assert_eq!(op.mnemonic, "SET 7, A");
    let single = Opcode::normal(0x00).unwrap();
    assert_eq!(single.mnemonic, "NOP");
    assert!(Opcode::normal(0xCB).is_none());
    assert_eq!(Opcode::prefixed(0x00).unwrap().mnemonic, "RLC B");
    let made = Opcode::new(0x12, "X".to_string(), 1, 4, AddressingMode::NoOperand, AddressingMode::ImmediateU8);
    assert_eq!((made.code, made.bytes, made.t_cycles), (0x12, 1, 4));
    assert_eq!(made.rhs, AddressingMode::ImmediateU8);
}
