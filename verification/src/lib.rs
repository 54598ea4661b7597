//! An emulator core for the processor and the video pipeline of a classic
//! 8-bit handheld console: register file, memory bus, opcode tables,
//! instruction execution and the scanline renderer.

pub mod bit_ops;
pub mod cartridge;
pub mod cpu;
pub mod debug;
pub mod display;
pub mod emulator;
pub mod errors;
pub mod frame_buffer;
pub mod hex;
pub mod lcd;
pub mod memory;
pub mod opcodes;
pub mod ppu;
pub mod registers;
pub mod rom;
pub mod test_data;
