use gb_emulator::cartridge::{Cartridge, MBC};
use gb_emulator::errors::CartridgeError;
use gb_emulator::memory::{Bus, DMGBus, RawBus};

/// An image of `banks` banks of 16 KiB. Every byte of bank `n` is `n`,
/// but for the header.
fn image(kind: u8, rom_size: u8, banks: usize, color_flag: u8) -> Vec<u8> {
    let mut raw = Vec::new();
    for bank in 0..banks {
        for _ in 0..0x4000 {
            raw.push(bank as u8);
        }
    }
    let title = b"TESTROM";
    for i in 0..16 {
        raw[0x134 + i] = if i < title.len() { title[i] } else { 0 };
    }
    raw[0x143] = color_flag;
    raw[0x147] = kind;
    raw[0x148] = rom_size;
    raw
}

fn console_bus() -> DMGBus {
    let mut boot = vec![0u8; 256];
    boot[0] = 0x31;
    boot[255] = 0xAB;
    let mut bus = DMGBus::new(boot);
    bus.load_cartridge(Cartridge::from(image(0x00, 0x00, 2, 0x00)).unwrap());
    bus
}

#[test]
fn flat_bus_holds_what_is_written() {
    let mut bus = RawBus::new();
    assert_eq!(bus.read_u8(0x1234), 0);
    bus.write_u8(0x1234, 0x56);
    bus.write_u8(0x0000, 0x01);
    bus.write_u8(0xFFFF, 0x02);
    bus.write_u8(0xFF04, 0x03);
    assert_eq!(bus.read_u8(0x1234), 0x56);
    assert_eq!(bus.read_u8(0x0000), 0x01);
    assert_eq!(bus.read_u8(0xFFFF), 0x02);
    assert_eq!(bus.read_u8(0xFF04), 0x03);
    bus.clear();
    assert_eq!(bus.read_u8(0x1234), 0);
}

#[test]
fn words_are_little_endian_and_wrap() {
    let mut bus = RawBus::new();
    bus.write_u8(0x2000, 0x34);
    bus.write_u8(0x2001, 0x12);
    assert_eq!(bus.read_u16(0x2000), 0x1234);
    bus.write_u8(0xFFFF, 0xCD);
    bus.write_u8(0x0000, 0xAB);
    assert_eq!(bus.read_u16(0xFFFF), 0xABCD);
}

#[test]
fn get_range_reads_in_address_order() {
    let mut bus = RawBus::new();
    bus.write_u8(0x10, 1);
    bus.write_u8(0x11, 2);
    bus.write_u8(0x12, 3);
    assert_eq!(bus.get_range(0x10..0x13), Ok(vec![1, 2, 3]));
    assert_eq!(bus.get_range(0x13..0x10), Ok(vec![]));
    assert_eq!(bus.get_range(0x20..0x20), Ok(vec![]));
    let bus = console_bus();
    assert_eq!(bus.get_range(0xFE9E..0xFEA2), Ok(vec![0xFF, 0xFF, 0x00, 0x00]));
}

#[test]
fn boot_rom_overlays_until_it_is_unmapped() {
    let mut bus = console_bus();
    assert_eq!(bus.read_u8(0x0000), 0x31);
    assert_eq!(bus.read_u8(0x00FF), 0xAB);
    assert_eq!(bus.read_u8(0x0100), 0x00);
    bus.write_u8(0xFF50, 0x01);
    assert_eq!(bus.read_u8(0xFF50), 0x01);
    assert_eq!(bus.read_u8(0x0000), 0x00);
    assert_eq!(bus.read_u8(0x00FF), 0x00);
    bus.write_u8(0xFF50, 0x00);
    bus.write_u8(0xC000, 0x12);
    assert_eq!(bus.read_u8(0x0000), 0x00);
}

#[test]
fn short_boot_rom_overlays_only_its_own_bytes() {
    let mut bus = DMGBus::new(vec![0x11, 0x22]);
    bus.load_cartridge(Cartridge::from(image(0x00, 0x00, 2, 0x00)).unwrap());
    assert_eq!(bus.read_u8(0x0000), 0x11);
    assert_eq!(bus.read_u8(0x0001), 0x22);
    assert_eq!(bus.read_u8(0x0002), 0x00);
}

#[test]
fn bus_without_cartridge_reads_0xff_from_rom() {
    let mut bus = DMGBus::new(Vec::new());
    assert_eq!(bus.read_u8(0x0000), 0xFF);
    assert_eq!(bus.read_u8(0x7FFF), 0xFF);
    bus.write_u8(0x2000, 0x02);
    assert_eq!(bus.read_u8(0x4000), 0xFF);
}

#[test]
fn regions_of_the_console_bus() {
    let mut bus = console_bus();
    bus.write_u8(0xFF50, 1);
    assert_eq!(bus.read_u8(0x3FFF), 0);
    assert_eq!(bus.read_u8(0x4000), 1);
    assert_eq!(bus.read_u8(0x7FFF), 1);
    for addr in [0x8000u16, 0x9FFF, 0xA000, 0xBFFF, 0xC000, 0xDFFF, 0xFE00, 0xFE9F, 0xFF00, 0xFF7F, 0xFF80, 0xFFFF] {
        assert_eq!(bus.read_u8(addr), 0xFF);
        bus.write_u8(addr, 0x5A);
        assert_eq!(bus.read_u8(addr), 0x5A);
    }
    bus.write_u8(0x0150, 0x77);
    assert_eq!(bus.read_u8(0x0150), 0x00);
}

#[test]
fn echo_mirrors_work_ram() {
    let mut bus = console_bus();
    bus.write_u8(0xC123, 0x42);
    assert_eq!(bus.read_u8(0xE123), 0x42);
    bus.write_u8(0xFDFF, 0x24);
    assert_eq!(bus.read_u8(0xDDFF), 0x24);
}

#[test]
fn the_gap_reads_zero_and_loses_writes() {
    let mut bus = console_bus();
    assert_eq!(bus.read_u8(0xFEA0), 0);
    bus.write_u8(0xFEA0, 0x99);
    bus.write_u8(0xFEFF, 0x99);
    assert_eq!(bus.read_u8(0xFEA0), 0);
    assert_eq!(bus.read_u8(0xFEFF), 0);
}

#[test]
fn a_write_to_the_divider_resets_it() {
    let mut bus = console_bus();
    assert_eq!(bus.read_u8(0xFF04), 0xFF);
    bus.write_u8(0xFF04, 0x77);
    assert_eq!(bus.read_u8(0xFF04), 0x00);
}

#[test]
fn clear_refills_the_writable_regions() {
    let mut bus = console_bus();
    bus.write_u8(0x8000, 1);
    bus.write_u8(0xC000, 2);
    bus.write_u8(0xFF80, 3);
    bus.write_u8(0xFF50, 1);
    bus.clear();
    assert_eq!(bus.read_u8(0x8000), 0xFF);
    assert_eq!(bus.read_u8(0xC000), 0xFF);
    assert_eq!(bus.read_u8(0xFF80), 0xFF);
    assert_eq!(bus.read_u8(0x0000), 0x00);
    assert_eq!(bus.read_u8(0x4000), 0x01);
}

#[test]
fn bank_switching_keeps_what_the_banks_hold() {
    let mut bus = DMGBus::new(Vec::new());
    bus.load_cartridge(Cartridge::from(image(0x01, 0x02, 4, 0x00)).unwrap());
    assert_eq!(bus.read_u8(0x0000), 0);
    assert_eq!(bus.read_u8(0x4000), 1);
    bus.write_u8(0x2000, 0x02);
    assert_eq!(bus.read_u8(0x4000), 2);
    assert_eq!(bus.read_u8(0x7FFF), 2);
    bus.write_u8(0x3FFF, 0x03);
    assert_eq!(bus.read_u8(0x4000), 3);
    bus.write_u8(0x2000, 0x02);
    assert_eq!(bus.read_u8(0x4000), 2);
    bus.write_u8(0x2000, 0x00);
    assert_eq!(bus.read_u8(0x4000), 1);
    bus.write_u8(0x2000, 0xE3);
    assert_eq!(bus.read_u8(0x4000), 3);
    bus.write_u8(0x2000, 0x20);
    assert_eq!(bus.read_u8(0x4000), 1);
    assert_eq!(bus.read_u8(0x0000), 0);
    bus.write_u8(0x2000, 0x1F);
    assert_eq!(bus.read_u8(0x4000), 0xFF);
    bus.write_u8(0x1FFF, 0x02);
    assert_eq!(bus.read_u8(0x4000), 0xFF);
}

#[test]
fn cartridge_header_is_parsed() {
    let cartridge = Cartridge::from(image(0x03, 0x01, 2, 0x80)).unwrap();
    assert_eq!(cartridge.title(), "TESTROM\0\0\0\0\0\0\0\0");
    assert!(cartridge.gb_compatible());
    assert_eq!(cartridge.mbc(), Some(MBC::MBC1));
    assert_eq!(cartridge.rom_bank_count(), 1);
    assert_eq!(cartridge.bytes().len(), 0x4000);
    assert_eq!(cartridge.read(0x0134), b'T');
    assert_eq!(cartridge.read(0x4000), 1);
    assert_eq!(cartridge.read(0x8000), 0xFF);
    let cartridge = Cartridge::from(image(0x00, 0x00, 2, 0x41)).unwrap();
    assert_eq!(cartridge.title(), "TESTROM\0\0\0\0\0\0\0\0A");
    assert!(cartridge.gb_compatible());
    assert_eq!(cartridge.mbc(), None);
    assert_eq!(cartridge.rom_bank_count(), 1);
    assert_eq!(cartridge.read(0x4000), 1);
    let cartridge = Cartridge::from(image(0x19, 0x00, 2, 0xC0)).unwrap();
    assert!(!cartridge.gb_compatible());
    assert_eq!(cartridge.mbc(), Some(MBC::MBC5));
    assert_eq!(cartridge.rom_bank_count(), 0);
    assert_eq!(cartridge.read(0x4000), 0xFF);
}

#[test]
fn set_rom_bank_masks_and_remaps() {
    let mut cartridge = Cartridge::from(image(0x01, 0x02, 4, 0x00)).unwrap();
    assert_eq!(cartridge.rom_bank_count(), 3);
    cartridge.set_rom_bank(3);
    assert_eq!(cartridge.read(0x4000), 3);
    cartridge.set_rom_bank(0);
    assert_eq!(cartridge.read(0x4000), 1);
    cartridge.set_rom_bank(0x22);
    assert_eq!(cartridge.read(0x4000), 2);
    cartridge.write(0x4000, 3);
    assert_eq!(cartridge.read(0x4000), 2);
    cartridge.write(0x2100, 1);
    assert_eq!(cartridge.read(0x4000), 1);
    cartridge.write(0x2100, 4);
    assert_eq!(cartridge.read(0x4000), 0xFF);
}

#[test]
fn bad_images_are_refused() {
    assert_eq!(Cartridge::from(vec![0u8; 0x3FFF]).err(), Some(CartridgeError::TooShort));
    assert_eq!(Cartridge::from(image(0x00, 0x00, 1, 0x00)).err(), Some(CartridgeError::TooShort));
    assert_eq!(Cartridge::from(image(0x01, 0x02, 3, 0x00)).err(), Some(CartridgeError::TooShort));
    assert_eq!(
        Cartridge::from(image(0x04, 0x00, 2, 0x00)).err(),
        Some(CartridgeError::UnknownCartridgeType(0x04))
    );
    assert_eq!(
        Cartridge::from(image(0x00, 0x09, 2, 0x00)).err(),
        Some(CartridgeError::UnknownRomSize(0x09))
    );
    let mut raw = image(0x00, 0x00, 2, 0x00);
    raw[0x134] = 0xFF;
    assert_eq!(Cartridge::from(raw).err(), Some(CartridgeError::BadTitle));
    let mut raw = image(0x04, 0x09, 2, 0x00);
    raw[0x136] = 0x80;
    assert_eq!(Cartridge::from(raw).err(), Some(CartridgeError::BadTitle));
}
