use gb_emulator::debug::{
    log_name, register_window_text, render_memory_viewer, DebugCtx, DebugFlags, Tile,
};
use gb_emulator::display::{rgb, Display, BLACK, WHITE};
use gb_emulator::errors::{CpuError, DrawOutOfBoundsError, EmulatorError, MemError};
use gb_emulator::hex::{hex_digit_text, push_decimal, push_hex_u16, push_hex_u8};
use gb_emulator::memory::{Bus, MemoryBus, RawBus};
use gb_emulator::registers::Registers;
use gb_emulator::rom::Rom;

const PALETTE: (u32, u32, u32, u32) = (0xAA, 0xBB, 0xCC, 0xDD);

#[test]
fn numbers_as_text() {
    assert_eq!(hex_digit_text(0), "0");
    assert_eq!(hex_digit_text(9), "9");
    assert_eq!(hex_digit_text(10), "a");
    assert_eq!(hex_digit_text(15), "f");
    let mut text = String::from(">");
    push_hex_u8(&mut text, 0x0A);
    push_hex_u8(&mut text, 0xF0);
    push_hex_u16(&mut text, 0x01BC);
    assert_eq!(text, ">0af001bc");
    let mut text = String::new();
    push_decimal(&mut text, 0);
    text.push(' ');
    push_decimal(&mut text, 7);
    text.push(' ');
    push_decimal(&mut text, 10);
    text.push(' ');
    push_decimal(&mut text, 65535);
    assert_eq!(text, "0 7 10 65535");
}

#[test]
fn errors_in_words() {
    assert_eq!(MemError::OutOfRange.message(), "requested memory range does not exist");
    assert_eq!(
        CpuError::OpcodeNotImplemented(0xC7, false).message(),
        "CPU_ERROR: Normal Opcode 0xc7 not implemented yet"
    );
    assert_eq!(
        CpuError::OpcodeNotImplemented(0x0A, true).message(),
        "CPU_ERROR: Prefixed Opcode 0x0a not implemented yet"
    );
    assert_eq!(
        CpuError::UnrecognizedOpcode(0xD3, false).message(),
        "CPU_ERROR: Normal Opcode 0xd3 not found in opcode map"
    );
    assert_eq!(
        CpuError::UnrecognizedOpcode(0x00, true).message(),
        "CPU_ERROR: Prefixed Opcode 0x00 not found in opcode map"
    );
    assert_eq!(CpuError::OpcodeError("bad".to_string()).message(), "CPU_ERROR: bad");
    assert_eq!(EmulatorError::IncompatibleRom.message(), "Selected rom is incompatible");
    assert_eq!(EmulatorError::NoProgramRom.message(), "No rom was given to the emulator");
    assert_eq!(DrawOutOfBoundsError::X(160).message(), "Tried drawing out of bound at x = 160");
    assert_eq!(DrawOutOfBoundsError::Y(0).message(), "Tried drawing out of bound at y = 0");
}

#[test]
fn a_tile_is_decoded_row_by_row() {
    let mut bytes = vec![0u8; 16];
    bytes[0] = 0b1010_0000;
    bytes[1] = 0b1100_0000;
    bytes[14] = 0x01;
    bytes[15] = 0x01;
    let tile = Tile::from(&bytes);
    let data = tile.get_data();
    assert_eq!(&data[..8], &[3, 2, 1, 0, 0, 0, 0, 0]);
    assert_eq!(&data[56..], &[0, 0, 0, 0, 0, 0, 0, 3]);
    assert!(data[8..56].iter().all(|pixel| *pixel == 0));
    let mut two = bytes.clone();
    two.extend_from_slice(&[0xFF; 16]);
    let tiles = Tile::parse_tile_data(two);
    assert_eq!(tiles.len(), 2);
    assert_eq!(tiles[0].get_data(), data);
    assert_eq!(tiles[1].get_data(), [3u8; 64]);
    assert_eq!(Tile::parse_tile_data(Vec::new()).len(), 0);
}

#[test]
fn the_memory_dump_has_its_headings_and_32_cells_a_line() {
    let mut bus = RawBus::new();
    bus.write_u8(0x0000, 0xAB);
    bus.write_u8(0x0008, 0x01);
    bus.write_u8(0x0010, 0x02);
    bus.write_u8(0x4000, 0xCD);
    bus.write_u8(0xFFFF, 0xEF);
    let mut ctx = DebugCtx::new(vec![DebugFlags::DumpMem], PALETTE);
    let dump = ctx.create_mem_dump(&bus).unwrap();
    let lines: Vec<&str> = dump.lines().collect();
    assert_eq!(lines[0], "");
    assert_eq!(lines[1], "MEMORY DUMP");
    assert_eq!(lines[2], "------------------------------------");
    assert_eq!(lines[3], "16KiB ROM Bank 00 | BOOT ROM $0000 - $00FF");
    assert_eq!(
        lines[4],
        "|0x0000| ab 00 00 00 00 00 00 00  01 00 00 00 00 00 00 00 |0x0010| 02 00 00 00 00 00 00 00  00 00 00 00 00 00 00 00 "
    );
    assert!(lines[5].starts_with("|0x0020| 00 "));
    let bank = lines.iter().position(|line| *line == "16 KiB ROM Bank 01-NN").unwrap();
    assert_eq!(bank, 4 + 0x4000 / 32);
    assert!(lines[bank + 1].starts_with("|0x4000| cd 00 "));
    for heading in [
        "VRAM",
        "8 KiB external RAM",
        "4 KiB WRAM",
        "Echo RAM",
        "Object attribute memory (OAM)",
        " NOT USEABLE",
        "I/O Registers",
        "High RAM / HRAM",
    ] {
        assert!(lines.iter().any(|line| *line == heading));
    }
    assert_eq!(lines.iter().filter(|line| **line == "4 KiB WRAM").count(), 2);
    assert!(dump.ends_with("ef "));
    assert_eq!(lines.len(), 4 + 2048 + 10);
    assert_eq!(ctx.dump_logs(&bus), Some(dump.clone()));
    ctx.deactivate();
    assert_eq!(ctx.create_mem_dump(&bus), None);
    assert_eq!(ctx.dump_logs(&bus), None);
    let mut both = DebugCtx::new(vec![DebugFlags::DumpCallLog, DebugFlags::DumpMem], PALETTE);
    both.push_call_log(0x0150, 0x00, "NOP");
    let log = both.dump_logs(&bus).unwrap();
    assert!(log.starts_with(
        "CALL LOG\n------------------------------------\npc:0x0150 -> 'NOP' (0x00)\n\nMEMORY DUMP\n"
    ));
    assert!(log.ends_with(&dump));
    let calls = DebugCtx::new(vec![DebugFlags::DumpCallLog], PALETTE);
    assert_eq!(
        calls.dump_logs(&bus),
        Some("CALL LOG\n------------------------------------\n".to_string())
    );
    let silent = DebugCtx::new(vec![DebugFlags::ShowTileMap, DebugFlags::ShowMemView], PALETTE);
    assert_eq!(silent.dump_logs(&bus), None);
}

#[test]
fn crash_logs_are_named_after_their_time() {
    assert_eq!(
        log_name("2024-05-06 07:08:09.123456789 +02:00"),
        "crash_log2024-05-06_07-08-09_123456789_+02-00"
    );
    assert_eq!(log_name(""), "crash_log");
    assert_eq!(log_name(" .:"), "crash_log__-");
}

#[test]
fn the_tiles_are_drawn_16_to_a_row() {
    let mut bus = RawBus::new();
    bus.write_u8(0x8000, 0x80);
    bus.write_u8(0x8001, 0x80);
    bus.write_u8(0x8000 + 16 * 17 + 2 * 3, 0x01);
    bus.write_u8(0x8000 + 16 * 383 + 15, 0x02);
    let ctx = DebugCtx::new(Vec::new(), PALETTE);
    let picture = ctx.render_tiles(&bus);
    assert_eq!((picture.width(), picture.height()), (128, 192));
    let pixels = picture.pixels();
    assert_eq!(pixels.len(), 128 * 192);
    assert_eq!(pixels[0], 0xDD);
    assert_eq!(pixels[(8 + 3) * 128 + 8 + 7], 0xBB);
    assert_eq!(pixels[191 * 128 + 15 * 8 + 6], 0xCC);
    assert_eq!(pixels.iter().filter(|pixel| **pixel != 0xAA).count(), 3);
}

#[test]
fn the_background_map_is_drawn_32_tiles_by_32() {
    let mut bus = RawBus::new();
    bus.write_u8(0x9800 + 33, 5);
    bus.write_u8(0x9C00 + 2, 5);
    bus.write_u8(0x8000 + 16 * 5, 0xFF);
    let ctx = DebugCtx::new(Vec::new(), PALETTE);
    let picture = ctx.render_background_map(&bus);
    assert_eq!((picture.width(), picture.height()), (256, 256));
    let pixels = picture.pixels();
    for x in 0..256 {
        for y in 0..256 {
            let expected = if y == 8 && x >= 8 && x < 16 { 0xBB } else { 0xAA };
            assert_eq!(pixels[y * 256 + x], expected);
        }
    }
    bus.write_u8(0xFF40, 0x08);
    let picture = ctx.render_background_map(&bus);
    let pixels = picture.pixels();
    assert_eq!(pixels[16], 0xBB);
    assert_eq!(pixels[8 * 256 + 8], 0xAA);
}

#[test]
fn the_memory_is_drawn_in_greys() {
    let mut bus = RawBus::new();
    bus.write_u8(0x0001, 0x12);
    bus.write_u8(0xFFFF, 0xFF);
    let picture = render_memory_viewer(&bus);
    assert_eq!(picture.len(), 0x10000);
    assert_eq!(picture[0], 0);
    assert_eq!(picture[1], 0x121212);
    assert_eq!(picture[0xFFFF], 0xFFFFFF);
}

#[test]
fn the_register_window_shows_every_register() {
    let reg = Registers { a: 0x01, b: 0x23, c: 0x45, d: 0x67, e: 0x89, f: 0xB0, h: 0xCD, l: 0xEF };
    assert_eq!(
        register_window_text(&reg),
        vec!["a:0x01", "f:0b10110000", "b:0x23", "c:0x45", "d:0x67", "e:0x89", "h:0xcd", "l:0xef"]
    );
}

#[test]
fn a_sized_memory_ends_where_it_was_told_to() {
    let mut bus = MemoryBus::new(0x0FFF, vec![0x31, 0xFE, 0xFF]);
    assert_eq!(bus.get_size(), 0x0FFF);
    assert_eq!(bus.read_u8(0x0000), 0x31);
    assert_eq!(bus.read_u16(0x0001), 0xFFFE);
    assert_eq!(bus.read_u8(0x0003), 0x00);
    bus.write_u8(0x0FFF, 0x77);
    assert_eq!(bus.read_u8(0x0FFF), 0x77);
    bus.write_u8(0x1000, 0x88);
    assert_eq!(bus.read_u8(0x1000), 0x00);
    assert_eq!(bus.get_range(0x0FFE..0x1000), Ok(vec![0x00, 0x77]));
    assert_eq!(bus.get_range(0x0FFE..0x1001), Err(MemError::OutOfRange));
    assert_eq!(bus.get_range(0x2000..0x1001), Err(MemError::OutOfRange));
    let mut rom = vec![0u8; 0x300];
    rom[0] = 0xAA;
    rom[0x1FF] = 0xBB;
    rom[0x200] = 0xCC;
    bus.load_rom(rom);
    assert_eq!(bus.read_u8(0x0100), 0xAA);
    assert_eq!(bus.read_u8(0x02FF), 0xBB);
    assert_eq!(bus.read_u8(0x0300), 0x00);
    assert_eq!(bus.read_u8(0x0000), 0x31);
    bus.load_rom(vec![0x11, 0x22]);
    assert_eq!(bus.read_u8(0x0100), 0x11);
    assert_eq!(bus.read_u8(0x0101), 0x22);
    assert_eq!(bus.read_u8(0x02FF), 0xBB);
    bus.clear();
    assert_eq!(bus.read_u8(0x0000), 0x00);
    assert_eq!(bus.read_u8(0x0100), 0x00);
    let mut whole = MemoryBus::new(0xFFFF, Vec::new());
    whole.write_u8(0xC000, 0x05);
    assert_eq!(whole.read_u8(0xE000), 0x05);
    whole.write_u8(0xFDFF, 0x06);
    assert_eq!(whole.read_u8(0xDDFF), 0x06);
    assert_eq!(whole.read_u8(0xFDFF), 0x06);
    whole.write_u8(0xDE00, 0x07);
    assert_eq!(whole.read_u8(0xFE00), 0x00);
    assert_eq!(whole.get_range(0xE000..0xE001), Ok(vec![0x05]));
    let mut short = MemoryBus::new(0xCFFF, Vec::new());
    short.write_u8(0xE123, 0x08);
    assert_eq!(short.read_u8(0xC123), 0x08);
    assert_eq!(short.read_u8(0xE123), 0x08);
    short.write_u8(0xF000, 0x09);
    assert_eq!(short.read_u8(0xF000), 0x00);
    let mut small = MemoryBus::new(1, vec![1, 2, 3]);
    assert_eq!(small.read_u8(0), 1);
    assert_eq!(small.read_u8(1), 2);
    assert_eq!(small.read_u8(2), 0);
    small.load_rom(vec![9; 0x300]);
    assert_eq!(small.read_u8(1), 2);
}

#[test]
fn a_display_keeps_its_pixels() {
    assert_eq!(rgb(0x12, 0x34, 0x56), 0x123456);
    assert_eq!(rgb(0, 0, 0), BLACK);
    assert_eq!(rgb(255, 255, 255), WHITE);
    let mut display = Display::new(4, 3);
    assert_eq!(display.size(), (4, 3));
    assert_eq!(display.buffer(), &vec![BLACK; 12]);
    assert_eq!(display.draw_pixel(3, 2, 7), Ok(()));
    assert_eq!(display.draw_pixel(0, 1, 8), Ok(()));
    assert_eq!(display.buffer()[11], 7);
    assert_eq!(display.buffer()[4], 8);
    assert_eq!(display.draw_pixel(4, 0, 9), Err(DrawOutOfBoundsError::X(4)));
    assert_eq!(display.draw_pixel(0, 3, 9), Err(DrawOutOfBoundsError::Y(3)));
    assert_eq!(display.draw_pixel(9, 9, 9), Err(DrawOutOfBoundsError::X(9)));
    assert_eq!(display.buffer().iter().filter(|pixel| **pixel != 0).count(), 2);
    display.set_background(WHITE);
    assert_eq!(display.buffer()[11], 7);
    display.clear();
    assert_eq!(display.buffer(), &vec![WHITE; 12]);
    display.set_buffer((0..12).collect());
    assert_eq!(display.buffer()[5], 5);
}

#[test]
fn a_rom_knows_whether_it_is_compatible() {
    let mut bytes = vec![0u8; 0x144];
    bytes[0x143] = 0x80;
    let rom = Rom::from(bytes.clone()).unwrap();
    assert!(rom.gb_compatible());
    assert_eq!(rom.bytes(), bytes);
    bytes[0x143] = 0x00;
    assert!(!Rom::from(bytes).unwrap().gb_compatible());
    assert!(Rom::from(vec![0x80; 0x143]).is_none());
}
