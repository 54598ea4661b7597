//! The failures that the emulator reports.

use vstd::prelude::*;
use vstd::string::StringExecFns;
use crate::hex::{decimal, hex_u8, push_decimal, push_hex_u8};

verus! {

/// A failure of the memory bus.
#[derive(Clone, Copy, Debug, PartialEq, Eq, Structural)]
pub enum MemError {
    /// A requested range reaches past the addressable size.
    OutOfRange,
}

/// A failure of the instruction engine. Each one is fatal: the processor
/// state after it is not meant to be run any further.
#[derive(Debug, PartialEq, Eq)]
pub enum CpuError {
    /// The opcode has a table entry but no handler. The flag says whether
    /// it was read behind the 0xCB prefix.
    OpcodeNotImplemented(u8, bool),
    /// The opcode byte has no table entry. The flag says whether it was
    /// read behind the 0xCB prefix.
    UnrecognizedOpcode(u8, bool),
    /// An operand did not resolve to the kind of data that the instruction
    /// takes.
    OpcodeError(String),
}

/// What a `CpuError` holds, with the message as a sequence of characters.
pub enum CpuErrorView {
    OpcodeNotImplemented(u8, bool),
    UnrecognizedOpcode(u8, bool),
    OpcodeError(Seq<char>),
}

impl View for CpuError {
    type V = CpuErrorView;

    open spec fn view(&self) -> CpuErrorView {
        match self {
            CpuError::OpcodeNotImplemented(code, prefixed) => CpuErrorView::OpcodeNotImplemented(
                *code,
                *prefixed,
            ),
            CpuError::UnrecognizedOpcode(code, prefixed) => CpuErrorView::UnrecognizedOpcode(
                *code,
                *prefixed,
            ),
            CpuError::OpcodeError(text) => CpuErrorView::OpcodeError(text@),
        }
    }
}

/// A failure of the emulator as a whole.
#[derive(Clone, Copy, Debug, PartialEq, Eq, Structural)]
pub enum EmulatorError {
    /// The cartridge is not made for this console.
    IncompatibleRom,
    /// No cartridge was given.
    NoProgramRom,
}

/// A cartridge image that cannot be used.
#[derive(Clone, Copy, Debug, PartialEq, Eq, Structural)]
pub enum CartridgeError {
    /// The image ends before the ROM banks that its header announces.
    TooShort,
    /// The title in the header is not valid UTF-8.
    BadTitle,
    /// The header names a cartridge type that is not known.
    UnknownCartridgeType(u8),
    /// The header names a ROM size that is not known.
    UnknownRomSize(u8),
}

/// A pixel that was to be drawn outside a display: the column or the row
/// that lies outside.
#[derive(Clone, Copy, Debug, PartialEq, Eq, Structural)]
pub enum DrawOutOfBoundsError {
    X(usize),
    Y(usize),
}

/// Whether an opcode was read behind the prefix, in words.
pub open spec fn table_word(prefixed: bool) -> Seq<char> {
    if prefixed {
        "Prefixed"@
    } else {
        "Normal"@
    }
}

impl CpuErrorView {
    /// The error in words.
    pub open spec fn message(self) -> Seq<char> {
        match self {
            CpuErrorView::OpcodeNotImplemented(code, prefixed) => "CPU_ERROR: "@ + table_word(
                prefixed,
            ) + " Opcode 0x"@ + hex_u8(code) + " not implemented yet"@,
            CpuErrorView::UnrecognizedOpcode(code, prefixed) => "CPU_ERROR: "@ + table_word(
                prefixed,
            ) + " Opcode 0x"@ + hex_u8(code) + " not found in opcode map"@,
            CpuErrorView::OpcodeError(text) => "CPU_ERROR: "@ + text,
        }
    }
}

impl MemError {
    /// The error in words.
    pub fn message(&self) -> (text: String)
        ensures
            text@ == "requested memory range does not exist"@,
    {
        "requested memory range does not exist".to_string()
    }
}

impl CpuError {
    /// The error in words.
    pub fn message(&self) -> (text: String)
        ensures
            text@ == self@.message(),
    {
        let mut text = "CPU_ERROR: ".to_string();
        match self {
            CpuError::OpcodeNotImplemented(code, prefixed) => {
                text.append(if *prefixed { "Prefixed" } else { "Normal" });
                text.append(" Opcode 0x");
                push_hex_u8(&mut text, *code);
                text.append(" not implemented yet");
            },
            CpuError::UnrecognizedOpcode(code, prefixed) => {
                text.append(if *prefixed { "Prefixed" } else { "Normal" });
                text.append(" Opcode 0x");
                push_hex_u8(&mut text, *code);
                text.append(" not found in opcode map");
            },
            CpuError::OpcodeError(msg) => {
                text.append(msg.as_str());
            },
        }
        assert(text@ =~= self@.message());
        text
    }
}

impl EmulatorError {
    /// The error in words.
    pub fn message(&self) -> (text: String)
        ensures
            text@ == (match self {
                EmulatorError::IncompatibleRom => "Selected rom is incompatible"@,
                EmulatorError::NoProgramRom => "No rom was given to the emulator"@,
            }),
    {
        match self {
            EmulatorError::IncompatibleRom => "Selected rom is incompatible".to_string(),
            EmulatorError::NoProgramRom => "No rom was given to the emulator".to_string(),
        }
    }
}

impl DrawOutOfBoundsError {
    /// The error in words.
    pub fn message(&self) -> (text: String)
        ensures
            text@ == (match self {
                DrawOutOfBoundsError::X(x) => "Tried drawing out of bound at x = "@ + decimal(
                    *x as nat,
                ),
                DrawOutOfBoundsError::Y(y) => "Tried drawing out of bound at y = "@ + decimal(
                    *y as nat,
                ),
            }),
    {
        match self {
            DrawOutOfBoundsError::X(x) => {
                let mut text = "Tried drawing out of bound at x = ".to_string();
                push_decimal(&mut text, *x);
                text
            },
            DrawOutOfBoundsError::Y(y) => {
                let mut text = "Tried drawing out of bound at y = ".to_string();
                push_decimal(&mut text, *y);
                text
            },
        }
    }
}

} // verus!
