//! The two opcode tables: for each opcode byte its mnemonic, its length in
//! bytes, its base cost in clock cycles and the addressing modes of its two
//! operands.

use vstd::prelude::*;
use vstd::string::StringExecFns;

verus! {

#[derive(Clone, Copy, Debug, PartialEq, Eq, Structural)]
pub enum Register {
    A,
    B,
    C,
    D,
    E,
    H,
    L,
    AF,
    BC,
    DE,
    HL,
    SP,
}

/// How an instruction finds one of its operands.
#[derive(Clone, Copy, Debug, PartialEq, Eq, Structural)]
pub enum AddressingMode {
    /// The value held in a register.
    ImmediateRegister(Register),
    /// The memory cell whose address is held in BC, DE or HL.
    AddressRegister(Register),
    /// The byte after the opcode.
    ImmediateU8,
    /// The memory cell at 0xFF00 plus the byte after the opcode.
    AddressHRAM,
    /// The byte after the opcode, read as a signed offset.
    ImmediateI8,
    /// The little-endian word after the opcode.
    ImmediateU16,
    /// The memory cell whose address is the word after the opcode.
    AddressU16,
    /// The memory cell at 0xFF00 plus register C.
    IoAddressOffset,
    /// No operand.
    NoOperand,
}

/// One entry of an opcode table.
#[derive(Debug)]
pub struct Opcode {
    pub code: u8,
    pub mnemonic: String,
    pub bytes: u8,
    pub t_cycles: u8,
    pub lhs: AddressingMode,
    pub rhs: AddressingMode,
}

/// What an `Opcode` holds, with the mnemonic as a sequence of characters.
pub struct OpcodeView {
    pub code: u8,
    pub mnemonic: Seq<char>,
    pub bytes: u8,
    pub t_cycles: u8,
    pub lhs: AddressingMode,
    pub rhs: AddressingMode,
}

impl View for Opcode {
    type V = OpcodeView;

    open spec fn view(&self) -> OpcodeView {
        OpcodeView {
            code: self.code,
            mnemonic: self.mnemonic@,
            bytes: self.bytes,
            t_cycles: self.t_cycles,
            lhs: self.lhs,
            rhs: self.rhs,
        }
    }
}

/// The views of the entries of a table, slot by slot.
pub open spec fn table_view(table: Seq<Option<Opcode>>) -> Seq<Option<OpcodeView>> {
    Seq::new(
        table.len(),
        |i: int|
            match table[i] {
                Some(op) => Some(op@),
                None => None,
            },
    )
}

/// The 8-bit operand that the low three bits of an opcode select: a
/// register, or for 6 the memory cell at HL.
pub open spec fn operand_r8(index: u8) -> AddressingMode {
    match index {
        0 => AddressingMode::ImmediateRegister(Register::B),
        1 => AddressingMode::ImmediateRegister(Register::C),
        2 => AddressingMode::ImmediateRegister(Register::D),
        3 => AddressingMode::ImmediateRegister(Register::E),
        4 => AddressingMode::ImmediateRegister(Register::H),
        5 => AddressingMode::ImmediateRegister(Register::L),
        6 => AddressingMode::AddressRegister(Register::HL),
        _ => AddressingMode::ImmediateRegister(Register::A),
    }
}

/// How `operand_r8(index)` is written in a mnemonic.
pub open spec fn operand_r8_name(index: u8) -> Seq<char> {
    match index {
        0 => "B"@,
        1 => "C"@,
        2 => "D"@,
        3 => "E"@,
        4 => "H"@,
        5 => "L"@,
        6 => "[HL]"@,
        _ => "A"@,
    }
}

/// The mnemonic of the arithmetic or logic operation numbered `index`.
pub open spec fn alu_name(index: u8) -> Seq<char> {
    match index {
        0 => "ADD"@,
        1 => "ADC"@,
        2 => "SUB"@,
        3 => "SBC"@,
        4 => "AND"@,
        5 => "XOR"@,
        6 => "OR"@,
        _ => "CP"@,
    }
}

/// The mnemonic of the rotate, shift or swap numbered `index`.
pub open spec fn rotate_name(index: u8) -> Seq<char> {
    match index {
        0 => "RLC"@,
        1 => "RRC"@,
        2 => "RL"@,
        3 => "RR"@,
        4 => "SLA"@,
        5 => "SRA"@,
        6 => "SWAP"@,
        _ => "SRL"@,
    }
}

/// The digit of a bit number.
pub open spec fn bit_name(index: u8) -> Seq<char> {
    match index {
        0 => "0"@,
        1 => "1"@,
        2 => "2"@,
        3 => "3"@,
        4 => "4"@,
        5 => "5"@,
        6 => "6"@,
        _ => "7"@,
    }
}

/// A present table entry.
pub open spec fn entry(
    code: u8,
    mnemonic: Seq<char>,
    bytes: u8,
    t_cycles: u8,
    lhs: AddressingMode,
    rhs: AddressingMode,
) -> Option<OpcodeView> {
    Some(OpcodeView { code, mnemonic, bytes, t_cycles, lhs, rhs })
}

/// The entry of the unprefixed table for `code`, or `None` where the byte
/// is no instruction. 0x40 to 0x7F are the register-to-register loads
/// (0x76 is HALT), 0x80 to 0xBF the arithmetic on the accumulator; the rest
/// is listed one by one. The prefix byte 0xCB has no entry of its own.
#[verifier::opaque]
pub open spec fn normal_opcode(code: u8) -> Option<OpcodeView> {
    if 0x40 <= code <= 0x7f && code != 0x76 {
        let y = ((code - 0x40) / 8) as u8;
        let z = code % 8;
        entry(
            code,
            "LD "@ + operand_r8_name(y) + ", "@ + operand_r8_name(z),
            1,
            if y == 6 || z == 6 { 8 } else { 4 },
            operand_r8(y),
            operand_r8(z),
        )
    } else if 0x80 <= code <= 0xbf {
        let y = ((code - 0x80) / 8) as u8;
        let z = code % 8;
        entry(
            code,
            alu_name(y) + " A, "@ + operand_r8_name(z),
            1,
            if z == 6 { 8 } else { 4 },
            AddressingMode::ImmediateRegister(Register::A),
            operand_r8(z),
        )
    } else {
        match code {
            0x00 => entry(code, "NOP"@, 1, 4, AddressingMode::NoOperand, AddressingMode::NoOperand),
            0x01 => entry(code, "LD BC, n16"@, 3, 12, AddressingMode::ImmediateRegister(Register::BC), AddressingMode::ImmediateU16),
            0x02 => entry(code, "LD [BC], A"@, 1, 8, AddressingMode::AddressRegister(Register::BC), AddressingMode::ImmediateRegister(Register::A)),
            0x03 => entry(code, "INC BC"@, 1, 8, AddressingMode::ImmediateRegister(Register::BC), AddressingMode::NoOperand),
            0x04 => entry(code, "INC B"@, 1, 4, AddressingMode::ImmediateRegister(Register::B), AddressingMode::NoOperand),
            0x05 => entry(code, "DEC B"@, 1, 4, AddressingMode::ImmediateRegister(Register::B), AddressingMode::NoOperand),
            0x06 => entry(code, "LD B, n8"@, 2, 8, AddressingMode::ImmediateRegister(Register::B), AddressingMode::ImmediateU8),
            0x07 => entry(code, "RLCA"@, 1, 4, AddressingMode::ImmediateRegister(Register::A), AddressingMode::NoOperand),
            0x08 => entry(code, "LD [a16], SP"@, 3, 20, AddressingMode::AddressU16, AddressingMode::ImmediateRegister(Register::SP)),
            0x09 => entry(code, "ADD HL, BC"@, 1, 8, AddressingMode::ImmediateRegister(Register::HL), AddressingMode::ImmediateRegister(Register::BC)),
            0x0a => entry(code, "LD A, [BC]"@, 1, 8, AddressingMode::ImmediateRegister(Register::A), AddressingMode::AddressRegister(Register::BC)),
            0x0b => entry(code, "DEC BC"@, 1, 8, AddressingMode::ImmediateRegister(Register::BC), AddressingMode::NoOperand),
            0x0c => entry(code, "INC C"@, 1, 4, AddressingMode::ImmediateRegister(Register::C), AddressingMode::NoOperand),
            0x0d => entry(code, "DEC C"@, 1, 4, AddressingMode::ImmediateRegister(Register::C), AddressingMode::NoOperand),
            0x0e => entry(code, "LD C, n8"@, 2, 8, AddressingMode::ImmediateRegister(Register::C), AddressingMode::ImmediateU8),
            0x0f => entry(code, "RRCA"@, 1, 4, AddressingMode::ImmediateRegister(Register::A), AddressingMode::NoOperand),
            0x10 => entry(code, "STOP n8"@, 2, 4, AddressingMode::ImmediateU8, AddressingMode::NoOperand),
            0x11 => entry(code, "LD DE, n16"@, 3, 12, AddressingMode::ImmediateRegister(Register::DE), AddressingMode::ImmediateU16),
            0x12 => entry(code, "LD [DE], A"@, 1, 8, AddressingMode::AddressRegister(Register::DE), AddressingMode::ImmediateRegister(Register::A)),
            0x13 => entry(code, "INC DE"@, 1, 8, AddressingMode::ImmediateRegister(Register::DE), AddressingMode::NoOperand),
            0x14 => entry(code, "INC D"@, 1, 4, AddressingMode::ImmediateRegister(Register::D), AddressingMode::NoOperand),
            0x15 => entry(code, "DEC D"@, 1, 4, AddressingMode::ImmediateRegister(Register::D), AddressingMode::NoOperand),
            0x16 => entry(code, "LD D, n8"@, 2, 8, AddressingMode::ImmediateRegister(Register::D), AddressingMode::ImmediateU8),
            0x17 => entry(code, "RLA"@, 1, 4, AddressingMode::ImmediateRegister(Register::A), AddressingMode::NoOperand),
            0x18 => entry(code, "JR, e8"@, 2, 12, AddressingMode::NoOperand, AddressingMode::ImmediateI8),
            0x19 => entry(code, "ADD HL, DE"@, 1, 8, AddressingMode::ImmediateRegister(Register::HL), AddressingMode::ImmediateRegister(Register::DE)),
            0x1a => entry(code, "LD A, [DE]"@, 1, 8, AddressingMode::ImmediateRegister(Register::A), AddressingMode::AddressRegister(Register::DE)),
            0x1b => entry(code, "DEC DE"@, 1, 8, AddressingMode::ImmediateRegister(Register::DE), AddressingMode::NoOperand),
            0x1c => entry(code, "INC E"@, 1, 4, AddressingMode::ImmediateRegister(Register::E), AddressingMode::NoOperand),
            0x1d => entry(code, "DEC E"@, 1, 4, AddressingMode::ImmediateRegister(Register::E), AddressingMode::NoOperand),
            0x1e => entry(code, "LD E, n8"@, 2, 8, AddressingMode::ImmediateRegister(Register::E), AddressingMode::ImmediateU8),
            0x1f => entry(code, "RRA"@, 1, 4, AddressingMode::ImmediateRegister(Register::A), AddressingMode::NoOperand),
            0x20 => entry(code, "JR NZ, e8"@, 2, 8, AddressingMode::NoOperand, AddressingMode::ImmediateI8),
            0x21 => entry(code, "LD HL, n16"@, 3, 12, AddressingMode::ImmediateRegister(Register::HL), AddressingMode::ImmediateU16),
            0x22 => entry(code, "LD [HLI], A"@, 1, 8, AddressingMode::AddressRegister(Register::HL), AddressingMode::ImmediateRegister(Register::A)),
            0x23 => entry(code, "INC HL"@, 1, 8, AddressingMode::ImmediateRegister(Register::HL), AddressingMode::NoOperand),
            0x24 => entry(code, "INC H"@, 1, 4, AddressingMode::ImmediateRegister(Register::H), AddressingMode::NoOperand),
            0x25 => entry(code, "DEC H"@, 1, 4, AddressingMode::ImmediateRegister(Register::H), AddressingMode::NoOperand),
            0x26 => entry(code, "LD H, n8"@, 2, 8, AddressingMode::ImmediateRegister(Register::H), AddressingMode::ImmediateU8),
            0x27 => entry(code, "DAA"@, 1, 4, AddressingMode::NoOperand, AddressingMode::NoOperand),
            0x28 => entry(code, "JR Z, e8"@, 2, 8, AddressingMode::NoOperand, AddressingMode::ImmediateI8),
            0x29 => entry(code, "ADD HL, HL"@, 1, 8, AddressingMode::ImmediateRegister(Register::HL), AddressingMode::ImmediateRegister(Register::HL)),
            0x2a => entry(code, "LD A, [HLI]"@, 1, 8, AddressingMode::ImmediateRegister(Register::A), AddressingMode::AddressRegister(Register::HL)),
            0x2b => entry(code, "DEC HL"@, 1, 8, AddressingMode::ImmediateRegister(Register::HL), AddressingMode::NoOperand),
            0x2c => entry(code, "INC L"@, 1, 4, AddressingMode::ImmediateRegister(Register::L), AddressingMode::NoOperand),
            0x2d => entry(code, "DEC L"@, 1, 4, AddressingMode::ImmediateRegister(Register::L), AddressingMode::NoOperand),
            0x2e => entry(code, "LD L, n8"@, 2, 8, AddressingMode::ImmediateRegister(Register::L), AddressingMode::ImmediateU8),
            0x2f => entry(code, "CPL"@, 1, 4, AddressingMode::NoOperand, AddressingMode::NoOperand),
            0x30 => entry(code, "JR NC, e8"@, 2, 8, AddressingMode::NoOperand, AddressingMode::ImmediateI8),
            0x31 => entry(code, "LD SP, n16"@, 3, 12, AddressingMode::ImmediateRegister(Register::SP), AddressingMode::ImmediateU16),
            0x32 => entry(code, "LD [HL-], A"@, 1, 8, AddressingMode::AddressRegister(Register::HL), AddressingMode::ImmediateRegister(Register::A)),
            0x33 => entry(code, "INC SP"@, 1, 8, AddressingMode::ImmediateRegister(Register::SP), AddressingMode::NoOperand),
            0x34 => entry(code, "INC [HL]"@, 1, 12, AddressingMode::AddressRegister(Register::HL), AddressingMode::NoOperand),
            0x35 => entry(code, "DEC [HL]"@, 1, 12, AddressingMode::AddressRegister(Register::HL), AddressingMode::NoOperand),
            0x36 => entry(code, "LD [HL], n8"@, 2, 12, AddressingMode::AddressRegister(Register::HL), AddressingMode::ImmediateU8),
            0x37 => entry(code, "SCF"@, 1, 4, AddressingMode::NoOperand, AddressingMode::NoOperand),
            0x38 => entry(code, "JR C, e8"@, 2, 8, AddressingMode::NoOperand, AddressingMode::ImmediateI8),
            0x39 => entry(code, "ADD HL, SP"@, 1, 8, AddressingMode::ImmediateRegister(Register::HL), AddressingMode::ImmediateRegister(Register::SP)),
            0x3a => entry(code, "LD A, [HL-]"@, 1, 8, AddressingMode::ImmediateRegister(Register::A), AddressingMode::AddressRegister(Register::HL)),
            0x3b => entry(code, "DEC SP"@, 1, 8, AddressingMode::ImmediateRegister(Register::SP), AddressingMode::NoOperand),
            0x3c => entry(code, "INC A"@, 1, 4, AddressingMode::ImmediateRegister(Register::A), AddressingMode::NoOperand),
            0x3d => entry(code, "DEC A"@, 1, 4, AddressingMode::ImmediateRegister(Register::A), AddressingMode::NoOperand),
            0x3e => entry(code, "LD A, n8"@, 2, 8, AddressingMode::ImmediateRegister(Register::A), AddressingMode::ImmediateU8),
            0x3f => entry(code, "CCF"@, 1, 4, AddressingMode::NoOperand, AddressingMode::NoOperand),
            0x76 => entry(code, "HALT"@, 1, 4, AddressingMode::NoOperand, AddressingMode::NoOperand),
            0xc0 => entry(code, "RET NZ"@, 1, 8, AddressingMode::NoOperand, AddressingMode::NoOperand),
            0xc1 => entry(code, "POP BC"@, 1, 12, AddressingMode::ImmediateRegister(Register::BC), AddressingMode::NoOperand),
            0xc2 => entry(code, "JP NZ, a16"@, 3, 12, AddressingMode::NoOperand, AddressingMode::AddressU16),
            0xc3 => entry(code, "JP a16"@, 3, 16, AddressingMode::AddressU16, AddressingMode::NoOperand),
            0xc4 => entry(code, "CALL NZ, a16"@, 3, 12, AddressingMode::NoOperand, AddressingMode::AddressU16),
            0xc5 => entry(code, "PUSH BC"@, 1, 16, AddressingMode::ImmediateRegister(Register::BC), AddressingMode::NoOperand),
            0xc6 => entry(code, "ADD A, n8"@, 2, 8, AddressingMode::ImmediateRegister(Register::A), AddressingMode::ImmediateU8),
            0xc7 => entry(code, "RST $00"@, 1, 16, AddressingMode::NoOperand, AddressingMode::NoOperand),
            0xc8 => entry(code, "RET Z"@, 1, 8, AddressingMode::NoOperand, AddressingMode::NoOperand),
            0xc9 => entry(code, "RET"@, 1, 16, AddressingMode::NoOperand, AddressingMode::NoOperand),
            0xca => entry(code, "JP Z, a16"@, 3, 12, AddressingMode::NoOperand, AddressingMode::AddressU16),
            0xcc => entry(code, "CALL Z, a16"@, 3, 12, AddressingMode::NoOperand, AddressingMode::AddressU16),
            0xcd => entry(code, "CALL a16"@, 3, 24, AddressingMode::AddressU16, AddressingMode::NoOperand),
            0xce => entry(code, "ADC A, n8"@, 2, 8, AddressingMode::ImmediateRegister(Register::A), AddressingMode::ImmediateU8),
            0xcf => entry(code, "RST $08"@, 1, 16, AddressingMode::NoOperand, AddressingMode::NoOperand),
            0xd0 => entry(code, "RET NC"@, 1, 8, AddressingMode::NoOperand, AddressingMode::NoOperand),
            0xd1 => entry(code, "POP DE"@, 1, 12, AddressingMode::ImmediateRegister(Register::DE), AddressingMode::NoOperand),
            0xd2 => entry(code, "JP NC, a16"@, 3, 12, AddressingMode::NoOperand, AddressingMode::AddressU16),
            0xd4 => entry(code, "CALL NC, a16"@, 3, 12, AddressingMode::NoOperand, AddressingMode::AddressU16),
            0xd5 => entry(code, "PUSH DE"@, 1, 16, AddressingMode::ImmediateRegister(Register::DE), AddressingMode::NoOperand),
            0xd6 => entry(code, "SUB A, n8"@, 2, 8, AddressingMode::ImmediateRegister(Register::A), AddressingMode::ImmediateU8),
            0xd7 => entry(code, "RST $10"@, 1, 16, AddressingMode::NoOperand, AddressingMode::NoOperand),
            0xd8 => entry(code, "RET C"@, 1, 8, AddressingMode::NoOperand, AddressingMode::NoOperand),
            0xd9 => entry(code, "RETI"@, 1, 16, AddressingMode::NoOperand, AddressingMode::NoOperand),
            0xda => entry(code, "JP C, a16"@, 3, 12, AddressingMode::NoOperand, AddressingMode::AddressU16),
            0xdc => entry(code, "CALL C, a16"@, 3, 12, AddressingMode::NoOperand, AddressingMode::AddressU16),
            0xde => entry(code, "SBC A, n8"@, 2, 8, AddressingMode::ImmediateRegister(Register::A), AddressingMode::ImmediateU8),
            0xdf => entry(code, "RST $18"@, 1, 16, AddressingMode::NoOperand, AddressingMode::NoOperand),
            0xe0 => entry(code, "LDH [a8], A"@, 2, 12, AddressingMode::AddressHRAM, AddressingMode::ImmediateRegister(Register::A)),
            0xe1 => entry(code, "POP HL"@, 1, 12, AddressingMode::ImmediateRegister(Register::HL), AddressingMode::NoOperand),
            0xe2 => entry(code, "LD [C], A"@, 1, 8, AddressingMode::IoAddressOffset, AddressingMode::ImmediateRegister(Register::A)),
            0xe5 => entry(code, "PUSH HL"@, 1, 16, AddressingMode::ImmediateRegister(Register::HL), AddressingMode::NoOperand),
            0xe6 => entry(code, "AND A, n8"@, 2, 8, AddressingMode::ImmediateRegister(Register::A), AddressingMode::ImmediateU8),
            0xe7 => entry(code, "RST $20"@, 1, 16, AddressingMode::NoOperand, AddressingMode::NoOperand),
            0xe8 => entry(code, "ADD SP, e8"@, 2, 16, AddressingMode::ImmediateRegister(Register::SP), AddressingMode::ImmediateI8),
            0xe9 => entry(code, "JP HL"@, 1, 4, AddressingMode::AddressRegister(Register::HL), AddressingMode::NoOperand),
            0xea => entry(code, "LD [a16], A"@, 3, 16, AddressingMode::AddressU16, AddressingMode::ImmediateRegister(Register::A)),
            0xee => entry(code, "XOR A, n8"@, 2, 8, AddressingMode::ImmediateRegister(Register::A), AddressingMode::ImmediateU8),
            0xef => entry(code, "RST $28"@, 1, 16, AddressingMode::NoOperand, AddressingMode::NoOperand),
            0xf0 => entry(code, "LDH A, [a8]"@, 2, 12, AddressingMode::ImmediateRegister(Register::A), AddressingMode::AddressHRAM),
            0xf1 => entry(code, "POP AF"@, 1, 12, AddressingMode::ImmediateRegister(Register::AF), AddressingMode::NoOperand),
            0xf2 => entry(code, "LD A, [C]"@, 1, 8, AddressingMode::ImmediateRegister(Register::A), AddressingMode::IoAddressOffset),
            0xf3 => entry(code, "DI"@, 1, 4, AddressingMode::NoOperand, AddressingMode::NoOperand),
            0xf5 => entry(code, "PUSH AF"@, 1, 16, AddressingMode::ImmediateRegister(Register::AF), AddressingMode::NoOperand),
            0xf6 => entry(code, "OR A, n8"@, 2, 8, AddressingMode::ImmediateRegister(Register::A), AddressingMode::ImmediateU8),
            0xf7 => entry(code, "RST $30"@, 1, 16, AddressingMode::NoOperand, AddressingMode::NoOperand),
            0xf8 => entry(code, "LD HL, SP + e8"@, 2, 12, AddressingMode::ImmediateRegister(Register::HL), AddressingMode::ImmediateI8),
            0xf9 => entry(code, "LD SP, HL"@, 1, 8, AddressingMode::ImmediateRegister(Register::SP), AddressingMode::ImmediateRegister(Register::HL)),
            0xfa => entry(code, "LD A, [a16]"@, 3, 16, AddressingMode::ImmediateRegister(Register::A), AddressingMode::AddressU16),
            0xfb => entry(code, "EI"@, 1, 4, AddressingMode::NoOperand, AddressingMode::NoOperand),
            0xfe => entry(code, "CP A, n8"@, 2, 8, AddressingMode::ImmediateRegister(Register::A), AddressingMode::ImmediateU8),
            0xff => entry(code, "RST $38"@, 1, 16, AddressingMode::NoOperand, AddressingMode::NoOperand),
            _ => None,
        }
    }
}

/// The entry of the 0xCB-prefixed table for `code`. Every byte is an
/// instruction there: rotates, shifts and swaps in the first quarter, then
/// BIT, RES and SET, each on the operand that the low three bits select.
#[verifier::opaque]
pub open spec fn prefixed_opcode(code: u8) -> Option<OpcodeView> {
    let y = ((code / 8) % 8) as u8;
    let z = code % 8;
    if code < 0x40 {
        entry(
            code,
            rotate_name(y) + " "@ + operand_r8_name(z),
            2,
            if z == 6 { 16 } else { 8 },
            operand_r8(z),
            AddressingMode::NoOperand,
        )
    } else {
        entry(
            code,
            (if code < 0x80 { "BIT "@ } else if code < 0xc0 { "RES "@ } else { "SET "@ })
                + bit_name(y) + ", "@ + operand_r8_name(z),
            2,
            if z != 6 { 8 } else if code < 0x80 { 12 } else { 16 },
            AddressingMode::NoOperand,
            operand_r8(z),
        )
    }
}

/// The whole unprefixed table, indexed by opcode byte.
pub open spec fn normal_table() -> Seq<Option<OpcodeView>> {
    Seq::new(256, |i: int| normal_opcode(i as u8))
}

/// The whole prefixed table, indexed by opcode byte.
pub open spec fn prefixed_table() -> Seq<Option<OpcodeView>> {
    Seq::new(256, |i: int| prefixed_opcode(i as u8))
}

fn operand_r8_of(index: u8) -> (mode: AddressingMode)
    ensures
        mode == operand_r8(index),
{
    match index {
        0 => AddressingMode::ImmediateRegister(Register::B),
        1 => AddressingMode::ImmediateRegister(Register::C),
        2 => AddressingMode::ImmediateRegister(Register::D),
        3 => AddressingMode::ImmediateRegister(Register::E),
        4 => AddressingMode::ImmediateRegister(Register::H),
        5 => AddressingMode::ImmediateRegister(Register::L),
        6 => AddressingMode::AddressRegister(Register::HL),
        _ => AddressingMode::ImmediateRegister(Register::A),
    }
}

fn operand_r8_text(index: u8) -> (name: &'static str)
    ensures
        name@ == operand_r8_name(index),
{
    match index {
        0 => "B",
        1 => "C",
        2 => "D",
        3 => "E",
        4 => "H",
        5 => "L",
        6 => "[HL]",
        _ => "A",
    }
}

fn alu_text(index: u8) -> (name: &'static str)
    ensures
        name@ == alu_name(index),
{
    match index {
        0 => "ADD",
        1 => "ADC",
        2 => "SUB",
        3 => "SBC",
        4 => "AND",
        5 => "XOR",
        6 => "OR",
        _ => "CP",
    }
}

fn rotate_text(index: u8) -> (name: &'static str)
    ensures
        name@ == rotate_name(index),
{
    match index {
        0 => "RLC",
        1 => "RRC",
        2 => "RL",
        3 => "RR",
        4 => "SLA",
        5 => "SRA",
        6 => "SWAP",
        _ => "SRL",
    }
}

fn bit_text(index: u8) -> (name: &'static str)
    ensures
        name@ == bit_name(index),
{
    match index {
        0 => "0",
        1 => "1",
        2 => "2",
        3 => "3",
        4 => "4",
        5 => "5",
        6 => "6",
        _ => "7",
    }
}

/// The view of an optional entry.
pub open spec fn entry_view(op: Option<Opcode>) -> Option<OpcodeView> {
    match op {
        Some(op) => Some(op@),
        None => None,
    }
}

impl Opcode {
    pub fn new(
        code: u8,
        mnemonic: String,
        bytes: u8,
        t_cycles: u8,
        lhs: AddressingMode,
        rhs: AddressingMode,
    ) -> (op: Opcode)
        ensures
            op@ == (OpcodeView { code, mnemonic: mnemonic@, bytes, t_cycles, lhs, rhs }),
    {
        Opcode { code, mnemonic, bytes, t_cycles, lhs, rhs }
    }

    /// Builds the entry of the unprefixed table for one opcode byte.
    #[verifier::rlimit(60)]
    pub fn normal(code: u8) -> (op: Option<Opcode>)
        ensures
            entry_view(op) == normal_opcode(code),
    {
        reveal(normal_opcode);
        if 0x40 <= code && code <= 0x7f && code != 0x76 {
            let y = (code - 0x40) / 8;
            let z = code % 8;
            let mut mnemonic = "LD ".to_string();
            mnemonic.append(operand_r8_text(y));
            mnemonic.append(", ");
            mnemonic.append(operand_r8_text(z));
            let t_cycles: u8 = if y == 6 || z == 6 { 8 } else { 4 };
            Some(Opcode::new(code, mnemonic, 1, t_cycles, operand_r8_of(y), operand_r8_of(z)))
        } else if 0x80 <= code && code <= 0xbf {
            let y = (code - 0x80) / 8;
            let z = code % 8;
            let mut mnemonic = alu_text(y).to_string();
            mnemonic.append(" A, ");
            mnemonic.append(operand_r8_text(z));
            let t_cycles: u8 = if z == 6 { 8 } else { 4 };
            Some(
                Opcode::new(
                    code,
                    mnemonic,
                    1,
                    t_cycles,
                    AddressingMode::ImmediateRegister(Register::A),
                    operand_r8_of(z),
                ),
            )
        } else {
            Self::normal_listed(code)
        }
    }

    /// The entries of the unprefixed table that are listed one by one.
    #[verifier::rlimit(60)]
    fn normal_listed(code: u8) -> (op: Option<Opcode>)
        requires
            !(0x40 <= code <= 0xbf) || code == 0x76,
        ensures
            entry_view(op) == normal_opcode(code),
    {
        reveal(normal_opcode);
        match code {
            0x00 => Some(Opcode::new(code, "NOP".to_string(), 1, 4, AddressingMode::NoOperand, AddressingMode::NoOperand)),
            0x01 => Some(Opcode::new(code, "LD BC, n16".to_string(), 3, 12, AddressingMode::ImmediateRegister(Register::BC), AddressingMode::ImmediateU16)),
            0x02 => Some(Opcode::new(code, "LD [BC], A".to_string(), 1, 8, AddressingMode::AddressRegister(Register::BC), AddressingMode::ImmediateRegister(Register::A))),
            0x03 => Some(Opcode::new(code, "INC BC".to_string(), 1, 8, AddressingMode::ImmediateRegister(Register::BC), AddressingMode::NoOperand)),
            0x04 => Some(Opcode::new(code, "INC B".to_string(), 1, 4, AddressingMode::ImmediateRegister(Register::B), AddressingMode::NoOperand)),
            0x05 => Some(Opcode::new(code, "DEC B".to_string(), 1, 4, AddressingMode::ImmediateRegister(Register::B), AddressingMode::NoOperand)),
            0x06 => Some(Opcode::new(code, "LD B, n8".to_string(), 2, 8, AddressingMode::ImmediateRegister(Register::B), AddressingMode::ImmediateU8)),
            0x07 => Some(Opcode::new(code, "RLCA".to_string(), 1, 4, AddressingMode::ImmediateRegister(Register::A), AddressingMode::NoOperand)),
            0x08 => Some(Opcode::new(code, "LD [a16], SP".to_string(), 3, 20, AddressingMode::AddressU16, AddressingMode::ImmediateRegister(Register::SP))),
            0x09 => Some(Opcode::new(code, "ADD HL, BC".to_string(), 1, 8, AddressingMode::ImmediateRegister(Register::HL), AddressingMode::ImmediateRegister(Register::BC))),
            0x0a => Some(Opcode::new(code, "LD A, [BC]".to_string(), 1, 8, AddressingMode::ImmediateRegister(Register::A), AddressingMode::AddressRegister(Register::BC))),
            0x0b => Some(Opcode::new(code, "DEC BC".to_string(), 1, 8, AddressingMode::ImmediateRegister(Register::BC), AddressingMode::NoOperand)),
            0x0c => Some(Opcode::new(code, "INC C".to_string(), 1, 4, AddressingMode::ImmediateRegister(Register::C), AddressingMode::NoOperand)),
            0x0d => Some(Opcode::new(code, "DEC C".to_string(), 1, 4, AddressingMode::ImmediateRegister(Register::C), AddressingMode::NoOperand)),
            0x0e => Some(Opcode::new(code, "LD C, n8".to_string(), 2, 8, AddressingMode::ImmediateRegister(Register::C), AddressingMode::ImmediateU8)),
            0x0f => Some(Opcode::new(code, "RRCA".to_string(), 1, 4, AddressingMode::ImmediateRegister(Register::A), AddressingMode::NoOperand)),
            0x10 => Some(Opcode::new(code, "STOP n8".to_string(), 2, 4, AddressingMode::ImmediateU8, AddressingMode::NoOperand)),
            0x11 => Some(Opcode::new(code, "LD DE, n16".to_string(), 3, 12, AddressingMode::ImmediateRegister(Register::DE), AddressingMode::ImmediateU16)),
            0x12 => Some(Opcode::new(code, "LD [DE], A".to_string(), 1, 8, AddressingMode::AddressRegister(Register::DE), AddressingMode::ImmediateRegister(Register::A))),
            0x13 => Some(Opcode::new(code, "INC DE".to_string(), 1, 8, AddressingMode::ImmediateRegister(Register::DE), AddressingMode::NoOperand)),
            0x14 => Some(Opcode::new(code, "INC D".to_string(), 1, 4, AddressingMode::ImmediateRegister(Register::D), AddressingMode::NoOperand)),
            0x15 => Some(Opcode::new(code, "DEC D".to_string(), 1, 4, AddressingMode::ImmediateRegister(Register::D), AddressingMode::NoOperand)),
            0x16 => Some(Opcode::new(code, "LD D, n8".to_string(), 2, 8, AddressingMode::ImmediateRegister(Register::D), AddressingMode::ImmediateU8)),
            0x17 => Some(Opcode::new(code, "RLA".to_string(), 1, 4, AddressingMode::ImmediateRegister(Register::A), AddressingMode::NoOperand)),
            0x18 => Some(Opcode::new(code, "JR, e8".to_string(), 2, 12, AddressingMode::NoOperand, AddressingMode::ImmediateI8)),
            0x19 => Some(Opcode::new(code, "ADD HL, DE".to_string(), 1, 8, AddressingMode::ImmediateRegister(Register::HL), AddressingMode::ImmediateRegister(Register::DE))),
            0x1a => Some(Opcode::new(code, "LD A, [DE]".to_string(), 1, 8, AddressingMode::ImmediateRegister(Register::A), AddressingMode::AddressRegister(Register::DE))),
            0x1b => Some(Opcode::new(code, "DEC DE".to_string(), 1, 8, AddressingMode::ImmediateRegister(Register::DE), AddressingMode::NoOperand)),
            0x1c => Some(Opcode::new(code, "INC E".to_string(), 1, 4, AddressingMode::ImmediateRegister(Register::E), AddressingMode::NoOperand)),
            0x1d => Some(Opcode::new(code, "DEC E".to_string(), 1, 4, AddressingMode::ImmediateRegister(Register::E), AddressingMode::NoOperand)),
            0x1e => Some(Opcode::new(code, "LD E, n8".to_string(), 2, 8, AddressingMode::ImmediateRegister(Register::E), AddressingMode::ImmediateU8)),
            0x1f => Some(Opcode::new(code, "RRA".to_string(), 1, 4, AddressingMode::ImmediateRegister(Register::A), AddressingMode::NoOperand)),
            0x20 => Some(Opcode::new(code, "JR NZ, e8".to_string(), 2, 8, AddressingMode::NoOperand, AddressingMode::ImmediateI8)),
            0x21 => Some(Opcode::new(code, "LD HL, n16".to_string(), 3, 12, AddressingMode::ImmediateRegister(Register::HL), AddressingMode::ImmediateU16)),
            0x22 => Some(Opcode::new(code, "LD [HLI], A".to_string(), 1, 8, AddressingMode::AddressRegister(Register::HL), AddressingMode::ImmediateRegister(Register::A))),
            0x23 => Some(Opcode::new(code, "INC HL".to_string(), 1, 8, AddressingMode::ImmediateRegister(Register::HL), AddressingMode::NoOperand)),
            0x24 => Some(Opcode::new(code, "INC H".to_string(), 1, 4, AddressingMode::ImmediateRegister(Register::H), AddressingMode::NoOperand)),
            0x25 => Some(Opcode::new(code, "DEC H".to_string(), 1, 4, AddressingMode::ImmediateRegister(Register::H), AddressingMode::NoOperand)),
            0x26 => Some(Opcode::new(code, "LD H, n8".to_string(), 2, 8, AddressingMode::ImmediateRegister(Register::H), AddressingMode::ImmediateU8)),
            0x27 => Some(Opcode::new(code, "DAA".to_string(), 1, 4, AddressingMode::NoOperand, AddressingMode::NoOperand)),
            0x28 => Some(Opcode::new(code, "JR Z, e8".to_string(), 2, 8, AddressingMode::NoOperand, AddressingMode::ImmediateI8)),
            0x29 => Some(Opcode::new(code, "ADD HL, HL".to_string(), 1, 8, AddressingMode::ImmediateRegister(Register::HL), AddressingMode::ImmediateRegister(Register::HL))),
            0x2a => Some(Opcode::new(code, "LD A, [HLI]".to_string(), 1, 8, AddressingMode::ImmediateRegister(Register::A), AddressingMode::AddressRegister(Register::HL))),
            0x2b => Some(Opcode::new(code, "DEC HL".to_string(), 1, 8, AddressingMode::ImmediateRegister(Register::HL), AddressingMode::NoOperand)),
            0x2c => Some(Opcode::new(code, "INC L".to_string(), 1, 4, AddressingMode::ImmediateRegister(Register::L), AddressingMode::NoOperand)),
            0x2d => Some(Opcode::new(code, "DEC L".to_string(), 1, 4, AddressingMode::ImmediateRegister(Register::L), AddressingMode::NoOperand)),
            0x2e => Some(Opcode::new(code, "LD L, n8".to_string(), 2, 8, AddressingMode::ImmediateRegister(Register::L), AddressingMode::ImmediateU8)),
            0x2f => Some(Opcode::new(code, "CPL".to_string(), 1, 4, AddressingMode::NoOperand, AddressingMode::NoOperand)),
            0x30 => Some(Opcode::new(code, "JR NC, e8".to_string(), 2, 8, AddressingMode::NoOperand, AddressingMode::ImmediateI8)),
            0x31 => Some(Opcode::new(code, "LD SP, n16".to_string(), 3, 12, AddressingMode::ImmediateRegister(Register::SP), AddressingMode::ImmediateU16)),
            0x32 => Some(Opcode::new(code, "LD [HL-], A".to_string(), 1, 8, AddressingMode::AddressRegister(Register::HL), AddressingMode::ImmediateRegister(Register::A))),
            0x33 => Some(Opcode::new(code, "INC SP".to_string(), 1, 8, AddressingMode::ImmediateRegister(Register::SP), AddressingMode::NoOperand)),
            0x34 => Some(Opcode::new(code, "INC [HL]".to_string(), 1, 12, AddressingMode::AddressRegister(Register::HL), AddressingMode::NoOperand)),
            0x35 => Some(Opcode::new(code, "DEC [HL]".to_string(), 1, 12, AddressingMode::AddressRegister(Register::HL), AddressingMode::NoOperand)),
            0x36 => Some(Opcode::new(code, "LD [HL], n8".to_string(), 2, 12, AddressingMode::AddressRegister(Register::HL), AddressingMode::ImmediateU8)),
            0x37 => Some(Opcode::new(code, "SCF".to_string(), 1, 4, AddressingMode::NoOperand, AddressingMode::NoOperand)),
            0x38 => Some(Opcode::new(code, "JR C, e8".to_string(), 2, 8, AddressingMode::NoOperand, AddressingMode::ImmediateI8)),
            0x39 => Some(Opcode::new(code, "ADD HL, SP".to_string(), 1, 8, AddressingMode::ImmediateRegister(Register::HL), AddressingMode::ImmediateRegister(Register::SP))),
            0x3a => Some(Opcode::new(code, "LD A, [HL-]".to_string(), 1, 8, AddressingMode::ImmediateRegister(Register::A), AddressingMode::AddressRegister(Register::HL))),
            0x3b => Some(Opcode::new(code, "DEC SP".to_string(), 1, 8, AddressingMode::ImmediateRegister(Register::SP), AddressingMode::NoOperand)),
            0x3c => Some(Opcode::new(code, "INC A".to_string(), 1, 4, AddressingMode::ImmediateRegister(Register::A), AddressingMode::NoOperand)),
            0x3d => Some(Opcode::new(code, "DEC A".to_string(), 1, 4, AddressingMode::ImmediateRegister(Register::A), AddressingMode::NoOperand)),
            0x3e => Some(Opcode::new(code, "LD A, n8".to_string(), 2, 8, AddressingMode::ImmediateRegister(Register::A), AddressingMode::ImmediateU8)),
            0x3f => Some(Opcode::new(code, "CCF".to_string(), 1, 4, AddressingMode::NoOperand, AddressingMode::NoOperand)),
            0x76 => Some(Opcode::new(code, "HALT".to_string(), 1, 4, AddressingMode::NoOperand, AddressingMode::NoOperand)),
            0xc0 => Some(Opcode::new(code, "RET NZ".to_string(), 1, 8, AddressingMode::NoOperand, AddressingMode::NoOperand)),
            0xc1 => Some(Opcode::new(code, "POP BC".to_string(), 1, 12, AddressingMode::ImmediateRegister(Register::BC), AddressingMode::NoOperand)),
            0xc2 => Some(Opcode::new(code, "JP NZ, a16".to_string(), 3, 12, AddressingMode::NoOperand, AddressingMode::AddressU16)),
            0xc3 => Some(Opcode::new(code, "JP a16".to_string(), 3, 16, AddressingMode::AddressU16, AddressingMode::NoOperand)),
            0xc4 => Some(Opcode::new(code, "CALL NZ, a16".to_string(), 3, 12, AddressingMode::NoOperand, AddressingMode::AddressU16)),
            0xc5 => Some(Opcode::new(code, "PUSH BC".to_string(), 1, 16, AddressingMode::ImmediateRegister(Register::BC), AddressingMode::NoOperand)),
            0xc6 => Some(Opcode::new(code, "ADD A, n8".to_string(), 2, 8, AddressingMode::ImmediateRegister(Register::A), AddressingMode::ImmediateU8)),
            0xc7 => Some(Opcode::new(code, "RST $00".to_string(), 1, 16, AddressingMode::NoOperand, AddressingMode::NoOperand)),
            0xc8 => Some(Opcode::new(code, "RET Z".to_string(), 1, 8, AddressingMode::NoOperand, AddressingMode::NoOperand)),
            0xc9 => Some(Opcode::new(code, "RET".to_string(), 1, 16, AddressingMode::NoOperand, AddressingMode::NoOperand)),
            0xca => Some(Opcode::new(code, "JP Z, a16".to_string(), 3, 12, AddressingMode::NoOperand, AddressingMode::AddressU16)),
            0xcc => Some(Opcode::new(code, "CALL Z, a16".to_string(), 3, 12, AddressingMode::NoOperand, AddressingMode::AddressU16)),
            0xcd => Some(Opcode::new(code, "CALL a16".to_string(), 3, 24, AddressingMode::AddressU16, AddressingMode::NoOperand)),
            0xce => Some(Opcode::new(code, "ADC A, n8".to_string(), 2, 8, AddressingMode::ImmediateRegister(Register::A), AddressingMode::ImmediateU8)),
            0xcf => Some(Opcode::new(code, "RST $08".to_string(), 1, 16, AddressingMode::NoOperand, AddressingMode::NoOperand)),
            0xd0 => Some(Opcode::new(code, "RET NC".to_string(), 1, 8, AddressingMode::NoOperand, AddressingMode::NoOperand)),
            0xd1 => Some(Opcode::new(code, "POP DE".to_string(), 1, 12, AddressingMode::ImmediateRegister(Register::DE), AddressingMode::NoOperand)),
            0xd2 => Some(Opcode::new(code, "JP NC, a16".to_string(), 3, 12, AddressingMode::NoOperand, AddressingMode::AddressU16)),
            0xd4 => Some(Opcode::new(code, "CALL NC, a16".to_string(), 3, 12, AddressingMode::NoOperand, AddressingMode::AddressU16)),
            0xd5 => Some(Opcode::new(code, "PUSH DE".to_string(), 1, 16, AddressingMode::ImmediateRegister(Register::DE), AddressingMode::NoOperand)),
            0xd6 => Some(Opcode::new(code, "SUB A, n8".to_string(), 2, 8, AddressingMode::ImmediateRegister(Register::A), AddressingMode::ImmediateU8)),
            0xd7 => Some(Opcode::new(code, "RST $10".to_string(), 1, 16, AddressingMode::NoOperand, AddressingMode::NoOperand)),
            0xd8 => Some(Opcode::new(code, "RET C".to_string(), 1, 8, AddressingMode::NoOperand, AddressingMode::NoOperand)),
            0xd9 => Some(Opcode::new(code, "RETI".to_string(), 1, 16, AddressingMode::NoOperand, AddressingMode::NoOperand)),
            0xda => Some(Opcode::new(code, "JP C, a16".to_string(), 3, 12, AddressingMode::NoOperand, AddressingMode::AddressU16)),
            0xdc => Some(Opcode::new(code, "CALL C, a16".to_string(), 3, 12, AddressingMode::NoOperand, AddressingMode::AddressU16)),
            0xde => Some(Opcode::new(code, "SBC A, n8".to_string(), 2, 8, AddressingMode::ImmediateRegister(Register::A), AddressingMode::ImmediateU8)),
            0xdf => Some(Opcode::new(code, "RST $18".to_string(), 1, 16, AddressingMode::NoOperand, AddressingMode::NoOperand)),
            0xe0 => Some(Opcode::new(code, "LDH [a8], A".to_string(), 2, 12, AddressingMode::AddressHRAM, AddressingMode::ImmediateRegister(Register::A))),
            0xe1 => Some(Opcode::new(code, "POP HL".to_string(), 1, 12, AddressingMode::ImmediateRegister(Register::HL), AddressingMode::NoOperand)),
            0xe2 => Some(Opcode::new(code, "LD [C], A".to_string(), 1, 8, AddressingMode::IoAddressOffset, AddressingMode::ImmediateRegister(Register::A))),
            0xe5 => Some(Opcode::new(code, "PUSH HL".to_string(), 1, 16, AddressingMode::ImmediateRegister(Register::HL), AddressingMode::NoOperand)),
            0xe6 => Some(Opcode::new(code, "AND A, n8".to_string(), 2, 8, AddressingMode::ImmediateRegister(Register::A), AddressingMode::ImmediateU8)),
            0xe7 => Some(Opcode::new(code, "RST $20".to_string(), 1, 16, AddressingMode::NoOperand, AddressingMode::NoOperand)),
            0xe8 => Some(Opcode::new(code, "ADD SP, e8".to_string(), 2, 16, AddressingMode::ImmediateRegister(Register::SP), AddressingMode::ImmediateI8)),
            0xe9 => Some(Opcode::new(code, "JP HL".to_string(), 1, 4, AddressingMode::AddressRegister(Register::HL), AddressingMode::NoOperand)),
            0xea => Some(Opcode::new(code, "LD [a16], A".to_string(), 3, 16, AddressingMode::AddressU16, AddressingMode::ImmediateRegister(Register::A))),
            0xee => Some(Opcode::new(code, "XOR A, n8".to_string(), 2, 8, AddressingMode::ImmediateRegister(Register::A), AddressingMode::ImmediateU8)),
            0xef => Some(Opcode::new(code, "RST $28".to_string(), 1, 16, AddressingMode::NoOperand, AddressingMode::NoOperand)),
            0xf0 => Some(Opcode::new(code, "LDH A, [a8]".to_string(), 2, 12, AddressingMode::ImmediateRegister(Register::A), AddressingMode::AddressHRAM)),
            0xf1 => Some(Opcode::new(code, "POP AF".to_string(), 1, 12, AddressingMode::ImmediateRegister(Register::AF), AddressingMode::NoOperand)),
            0xf2 => Some(Opcode::new(code, "LD A, [C]".to_string(), 1, 8, AddressingMode::ImmediateRegister(Register::A), AddressingMode::IoAddressOffset)),
            0xf3 => Some(Opcode::new(code, "DI".to_string(), 1, 4, AddressingMode::NoOperand, AddressingMode::NoOperand)),
            0xf5 => Some(Opcode::new(code, "PUSH AF".to_string(), 1, 16, AddressingMode::ImmediateRegister(Register::AF), AddressingMode::NoOperand)),
            0xf6 => Some(Opcode::new(code, "OR A, n8".to_string(), 2, 8, AddressingMode::ImmediateRegister(Register::A), AddressingMode::ImmediateU8)),
            0xf7 => Some(Opcode::new(code, "RST $30".to_string(), 1, 16, AddressingMode::NoOperand, AddressingMode::NoOperand)),
            0xf8 => Some(Opcode::new(code, "LD HL, SP + e8".to_string(), 2, 12, AddressingMode::ImmediateRegister(Register::HL), AddressingMode::ImmediateI8)),
            0xf9 => Some(Opcode::new(code, "LD SP, HL".to_string(), 1, 8, AddressingMode::ImmediateRegister(Register::SP), AddressingMode::ImmediateRegister(Register::HL))),
            0xfa => Some(Opcode::new(code, "LD A, [a16]".to_string(), 3, 16, AddressingMode::ImmediateRegister(Register::A), AddressingMode::AddressU16)),
            0xfb => Some(Opcode::new(code, "EI".to_string(), 1, 4, AddressingMode::NoOperand, AddressingMode::NoOperand)),
            0xfe => Some(Opcode::new(code, "CP A, n8".to_string(), 2, 8, AddressingMode::ImmediateRegister(Register::A), AddressingMode::ImmediateU8)),
            0xff => Some(Opcode::new(code, "RST $38".to_string(), 1, 16, AddressingMode::NoOperand, AddressingMode::NoOperand)),
            _ => None,
        }
    }

    /// Builds the entry of the prefixed table for one opcode byte.
    #[verifier::rlimit(60)]
    pub fn prefixed(code: u8) -> (op: Option<Opcode>)
        ensures
            entry_view(op) == prefixed_opcode(code),
    {
        reveal(prefixed_opcode);
        let y = (code / 8) % 8;
        let z = code % 8;
        if code < 0x40 {
            let mut mnemonic = rotate_text(y).to_string();
            mnemonic.append(" ");
            mnemonic.append(operand_r8_text(z));
            let t_cycles: u8 = if z == 6 { 16 } else { 8 };
            Some(Opcode::new(code, mnemonic, 2, t_cycles, operand_r8_of(z), AddressingMode::NoOperand))
        } else {
            let mut mnemonic = if code < 0x80 {
                "BIT ".to_string()
            } else if code < 0xc0 {
                "RES ".to_string()
            } else {
                "SET ".to_string()
            };
            mnemonic.append(bit_text(y));
            mnemonic.append(", ");
            mnemonic.append(operand_r8_text(z));
            let t_cycles: u8 = if z != 6 { 8 } else if code < 0x80 { 12 } else { 16 };
            Some(Opcode::new(code, mnemonic, 2, t_cycles, AddressingMode::NoOperand, operand_r8_of(z)))
        }
    }

    /// Builds the unprefixed table: 256 slots indexed by opcode byte, with
    /// `None` in the slots of bytes that are no instruction.
    pub fn generate_normal_opcode_map() -> (table: Vec<Option<Opcode>>)
        ensures
            table_view(table@) == normal_table(),
    {
        let mut table: Vec<Option<Opcode>> = Vec::new();
        let mut code: u8 = 0;
        loop
            invariant_except_break
                table@.len() == code,
                forall|i: int| 0 <= i < code ==> entry_view(#[trigger] table@[i]) == normal_opcode(i as u8),
            ensures
                table@.len() == 256,
                forall|i: int| 0 <= i < 256 ==> entry_view(#[trigger] table@[i]) == normal_opcode(i as u8),
            decreases 255 - code,
        {
            table.push(Opcode::normal(code));
            if code == 255 {
                break;
            }
            code = code + 1;
        }
        assert(table_view(table@) =~= normal_table());
        table
    }

    /// Builds the prefixed table: 256 slots indexed by opcode byte.
    pub fn generate_prefixed_opcode_map() -> (table: Vec<Option<Opcode>>)
        ensures
            table_view(table@) == prefixed_table(),
    {
        let mut table: Vec<Option<Opcode>> = Vec::new();
        let mut code: u8 = 0;
        loop
            invariant_except_break
                table@.len() == code,
                forall|i: int| 0 <= i < code ==> entry_view(#[trigger] table@[i]) == prefixed_opcode(i as u8),
            ensures
                table@.len() == 256,
                forall|i: int| 0 <= i < 256 ==> entry_view(#[trigger] table@[i]) == prefixed_opcode(i as u8),
            decreases 255 - code,
        {
            table.push(Opcode::prefixed(code));
            if code == 255 {
                break;
            }
            code = code + 1;
        }
        assert(table_view(table@) =~= prefixed_table());
        table
    }
}

} // verus!
