//! A cartridge: what its header says, its fixed ROM bank and the ROM banks
//! that can be switched into the window at 0x4000.

use vstd::prelude::*;
use vstd::utf8::{decode_utf8, valid_utf8};
use crate::errors::CartridgeError;

verus! {

/// The kinds of memory bank controller that a header can name.
#[derive(Clone, Copy, Debug, PartialEq, Eq, Structural)]
pub enum MBC {
    MBC1,
    MBC2,
    MBC3,
    MBC5,
    MBC6,
    MBC7,
    MMM01,
    M161,
    HuC1,
    HuC3,
}

/// A cartridge as the bus sees it.
pub struct Cartridge {
    title: String,
    gb_compatible: bool,
    mbc: Option<MBC>,
    ram: bool,
    battery: bool,
    timer: bool,
    fixed_rom_bank: Vec<u8>,
    switchable_banks: Vec<Vec<u8>>,
    current_bank: usize,
}

/// What a cartridge holds. `switchable_banks[i]` is what the window at
/// 0x4000 shows while `current_bank` is `i`.
pub struct CartridgeView {
    pub title: Seq<char>,
    pub gb_compatible: bool,
    pub mbc: Option<MBC>,
    pub ram: bool,
    pub battery: bool,
    pub timer: bool,
    pub fixed_rom_bank: Seq<u8>,
    pub switchable_banks: Seq<Seq<u8>>,
    pub current_bank: usize,
}

/// The index of the bank that writing `bank_number` to the bank register
/// selects: only the low five bits count, a request for bank 0 selects
/// bank 1, and bank 1 is the first of the switchable banks.
pub open spec fn selected_bank(bank_number: u8) -> usize {
    if bank_number & 0x1f == 0 {
        0
    } else {
        ((bank_number & 0x1f) - 1) as usize
    }
}

impl CartridgeView {
    /// The byte of the fixed bank at `addr`, 0xFF past its end.
    pub open spec fn fixed_rom_bank_byte(self, addr: u16) -> u8 {
        if addr < self.fixed_rom_bank.len() {
            self.fixed_rom_bank[addr as int]
        } else {
            0xFF
        }
    }

    /// The byte that the cartridge shows at `addr`: the fixed bank below
    /// 0x4000, the selected bank from 0x4000 to 0x7FFF, and 0xFF where no
    /// ROM answers.
    pub open spec fn read(self, addr: u16) -> u8 {
        if addr < 0x4000 {
            self.fixed_rom_bank_byte(addr)
        } else if addr < 0x8000 && self.current_bank < self.switchable_banks.len() && addr - 0x4000
            < self.switchable_banks[self.current_bank as int].len() {
            self.switchable_banks[self.current_bank as int][addr - 0x4000]
        } else {
            0xFF
        }
    }

    /// The cartridge after `value` was written to `addr`: a write to
    /// 0x2000..=0x3FFF selects a bank, any other write changes nothing.
    /// No write changes what a bank holds.
    pub open spec fn write(self, addr: u16, value: u8) -> CartridgeView {
        if 0x2000 <= addr <= 0x3FFF {
            CartridgeView { current_bank: selected_bank(value), ..self }
        } else {
            self
        }
    }
}

/// What the cartridge-type byte of a header stands for: the controller,
/// and whether the cartridge has RAM, a battery and a timer.
pub open spec fn cartridge_kind(byte: u8) -> Option<(Option<MBC>, bool, bool, bool)> {
    match byte {
        0x00 => Some((None, false, false, false)),
        0x01 => Some((Some(MBC::MBC1), false, false, false)),
        0x02 => Some((Some(MBC::MBC1), true, false, false)),
        0x03 => Some((Some(MBC::MBC1), true, true, false)),
        0x05 => Some((Some(MBC::MBC2), false, false, false)),
        0x06 => Some((Some(MBC::MBC2), false, true, false)),
        0x08 => Some((None, true, false, false)),
        0x09 => Some((None, true, true, false)),
        0x0b => Some((Some(MBC::MMM01), false, false, false)),
        0x0c => Some((Some(MBC::MMM01), true, false, false)),
        0x0d => Some((Some(MBC::MMM01), true, true, false)),
        0x0f => Some((Some(MBC::MBC3), false, true, true)),
        0x10 => Some((Some(MBC::MBC3), true, true, true)),
        0x11 => Some((Some(MBC::MBC3), false, false, false)),
        0x12 => Some((Some(MBC::MBC3), true, false, false)),
        0x13 => Some((Some(MBC::MBC3), true, true, false)),
        0x19 => Some((Some(MBC::MBC5), false, false, false)),
        0x1a => Some((Some(MBC::MBC5), true, false, false)),
        0x1b => Some((Some(MBC::MBC5), true, true, false)),
        0x20 => Some((Some(MBC::MBC6), false, false, false)),
        0xfe => Some((Some(MBC::HuC3), false, false, false)),
        0xff => Some((Some(MBC::HuC1), true, true, false)),
        _ => None,
    }
}

/// The number of ROM banks that the ROM-size byte of a header stands for.
pub open spec fn rom_bank_count(byte: u8) -> Option<usize> {
    match byte {
        0x00 => Some(1),
        0x01 => Some(2),
        0x02 => Some(4),
        0x03 => Some(8),
        0x04 => Some(16),
        0x05 => Some(32),
        0x06 => Some(64),
        0x07 => Some(128),
        0x08 => Some(256),
        0x52 => Some(72),
        0x53 => Some(80),
        0x54 => Some(96),
        _ => None,
    }
}

/// The bytes of a header that hold the title: fifteen where the byte at
/// 0x143 is a colour flag (0x80 or 0xC0), sixteen where it is part of the
/// title.
pub open spec fn title_bytes(raw: Seq<u8>) -> Seq<u8> {
    if raw[0x143] == 0x80 || raw[0x143] == 0xC0 {
        raw.subrange(0x134, 0x143)
    } else {
        raw.subrange(0x134, 0x144)
    }
}

/// The switchable banks of an image of `count` banks of 16 KiB. The
/// first 16 KiB are bank 0, the fixed bank. Where there is no controller,
/// bank 1 is the one switchable bank; for an MBC1 the banks from bank 1
/// to the last are switchable, in their order; for any other controller
/// none is.
pub open spec fn image_banks(raw: Seq<u8>, mbc: Option<MBC>, count: usize) -> Seq<Seq<u8>> {
    match mbc {
        None => seq![raw.subrange(0x4000, 0x8000)],
        Some(MBC::MBC1) => Seq::new(
            if count == 0 { 0 } else { (count - 1) as nat },
            |i: int| raw.subrange(0x4000 * (i + 1), 0x4000 * (i + 1) + 0x4000),
        ),
        _ => Seq::empty(),
    }
}

/// The number of bytes that an image needs for its banks.
pub open spec fn image_len_needed(mbc: Option<MBC>, count: usize) -> int {
    match mbc {
        None => 0x8000,
        Some(MBC::MBC1) => if count == 0 { 0x4000 } else { 0x4000 * count },
        _ => 0x4000,
    }
}

/// What an image parses to.
pub open spec fn parse_image(raw: Seq<u8>) -> Result<CartridgeView, CartridgeError> {
    if raw.len() < 0x4000 {
        Err(CartridgeError::TooShort)
    } else if !valid_utf8(title_bytes(raw)) {
        Err(CartridgeError::BadTitle)
    } else if cartridge_kind(raw[0x147]) is None {
        Err(CartridgeError::UnknownCartridgeType(raw[0x147]))
    } else if rom_bank_count(raw[0x148]) is None {
        Err(CartridgeError::UnknownRomSize(raw[0x148]))
    } else {
        let (mbc, ram, battery, timer) = cartridge_kind(raw[0x147]).unwrap();
        let count = rom_bank_count(raw[0x148]).unwrap();
        if raw.len() < image_len_needed(mbc, count) {
            Err(CartridgeError::TooShort)
        } else {
            Ok(
                CartridgeView {
                    title: decode_utf8(title_bytes(raw)),
                    gb_compatible: raw[0x143] != 0xC0,
                    mbc,
                    ram,
                    battery,
                    timer,
                    fixed_rom_bank: raw.subrange(0, 0x4000),
                    switchable_banks: image_banks(raw, mbc, count),
                    current_bank: 0,
                },
            )
        }
    }
}

/// `String::from_utf8` of the standard library: it succeeds on the byte
/// strings that are valid UTF-8 and on no others, and the string it gives
/// holds the characters that the bytes encode.
#[verifier::external_body]
fn string_from_utf8(bytes: Vec<u8>) -> (text: Option<String>)
    ensures
        text is Some <==> valid_utf8(bytes@),
        text matches Some(t) ==> t@ == decode_utf8(bytes@),
{
    match String::from_utf8(bytes) {
        Ok(text) => Some(text),
        Err(_) => None,
    }
}

/// Copies the bytes of `source` from `start` up to `end`.
fn copy_range(source: &Vec<u8>, start: usize, end: usize) -> (bytes: Vec<u8>)
    requires
        start <= end <= source@.len(),
    ensures
        bytes@ == source@.subrange(start as int, end as int),
{
    let mut bytes: Vec<u8> = Vec::new();
    let mut i: usize = start;
    while i < end
        invariant
            start <= i <= end <= source@.len(),
            bytes@ == source@.subrange(start as int, i as int),
        decreases end - i,
    {
        bytes.push(source[i]);
        i = i + 1;
        assert(bytes@ =~= source@.subrange(start as int, i as int));
    }
    bytes
}

fn kind_of(byte: u8) -> (kind: Option<(Option<MBC>, bool, bool, bool)>)
    ensures
        kind == cartridge_kind(byte),
{
    match byte {
        0x00 => Some((None, false, false, false)),
        0x01 => Some((Some(MBC::MBC1), false, false, false)),
        0x02 => Some((Some(MBC::MBC1), true, false, false)),
        0x03 => Some((Some(MBC::MBC1), true, true, false)),
        0x05 => Some((Some(MBC::MBC2), false, false, false)),
        0x06 => Some((Some(MBC::MBC2), false, true, false)),
        0x08 => Some((None, true, false, false)),
        0x09 => Some((None, true, true, false)),
        0x0b => Some((Some(MBC::MMM01), false, false, false)),
        0x0c => Some((Some(MBC::MMM01), true, false, false)),
        0x0d => Some((Some(MBC::MMM01), true, true, false)),
        0x0f => Some((Some(MBC::MBC3), false, true, true)),
        0x10 => Some((Some(MBC::MBC3), true, true, true)),
        0x11 => Some((Some(MBC::MBC3), false, false, false)),
        0x12 => Some((Some(MBC::MBC3), true, false, false)),
        0x13 => Some((Some(MBC::MBC3), true, true, false)),
        0x19 => Some((Some(MBC::MBC5), false, false, false)),
        0x1a => Some((Some(MBC::MBC5), true, false, false)),
        0x1b => Some((Some(MBC::MBC5), true, true, false)),
        0x20 => Some((Some(MBC::MBC6), false, false, false)),
        0xfe => Some((Some(MBC::HuC3), false, false, false)),
        0xff => Some((Some(MBC::HuC1), true, true, false)),
        _ => None,
    }
}

fn bank_count_of(byte: u8) -> (count: Option<usize>)
    ensures
        count == rom_bank_count(byte),
{
    match byte {
        0x00 => Some(1),
        0x01 => Some(2),
        0x02 => Some(4),
        0x03 => Some(8),
        0x04 => Some(16),
        0x05 => Some(32),
        0x06 => Some(64),
        0x07 => Some(128),
        0x08 => Some(256),
        0x52 => Some(72),
        0x53 => Some(80),
        0x54 => Some(96),
        _ => None,
    }
}

impl View for Cartridge {
    type V = CartridgeView;

    closed spec fn view(&self) -> CartridgeView {
        CartridgeView {
            title: self.title@,
            gb_compatible: self.gb_compatible,
            mbc: self.mbc,
            ram: self.ram,
            battery: self.battery,
            timer: self.timer,
            fixed_rom_bank: self.fixed_rom_bank@,
            switchable_banks: Seq::new(
                self.switchable_banks@.len(),
                |i: int| self.switchable_banks@[i]@,
            ),
            current_bank: self.current_bank,
        }
    }
}

impl Cartridge {
    /// Parses a cartridge image: the header at 0x134..=0x148 and the ROM
    /// banks. The first bank that the window shows is selected.
    pub fn from(raw_file: Vec<u8>) -> (parsed: Result<Cartridge, CartridgeError>)
        ensures
            match parsed {
                Ok(cartridge) => parse_image(raw_file@) == Ok::<CartridgeView, CartridgeError>(cartridge@),
                Err(e) => parse_image(raw_file@) == Err::<CartridgeView, CartridgeError>(e),
            },
    {
        if raw_file.len() < 0x4000 {
            return Err(CartridgeError::TooShort);
        }
        let cgb_flag = raw_file[0x143];
        let title_end: usize = if cgb_flag == 0x80 || cgb_flag == 0xC0 { 0x143 } else { 0x144 };
        let title = match string_from_utf8(copy_range(&raw_file, 0x134, title_end)) {
            Some(title) => title,
            None => {
                return Err(CartridgeError::BadTitle);
            },
        };
        let (mbc, ram, battery, timer) = match kind_of(raw_file[0x147]) {
            Some(kind) => kind,
            None => {
                return Err(CartridgeError::UnknownCartridgeType(raw_file[0x147]));
            },
        };
        let rom_banks = match bank_count_of(raw_file[0x148]) {
            Some(count) => count,
            None => {
                return Err(CartridgeError::UnknownRomSize(raw_file[0x148]));
            },
        };
        let fixed_rom_bank = copy_range(&raw_file, 0, 0x4000);
        let mut switchable_banks: Vec<Vec<u8>> = Vec::new();
        match mbc {
            None => {
                if raw_file.len() < 0x8000 {
                    return Err(CartridgeError::TooShort);
                }
                switchable_banks.push(copy_range(&raw_file, 0x4000, 0x8000));
                assert(Seq::new(switchable_banks@.len(), |i: int| switchable_banks@[i]@)
                    =~= image_banks(raw_file@, mbc, rom_banks));
            },
            Some(MBC::MBC1) => {
                if raw_file.len() / 0x4000 < rom_banks {
                    return Err(CartridgeError::TooShort);
                }
                let mut i: usize = 1;
                while i < rom_banks
                    invariant
                        1 <= i,
                        i <= rom_banks || rom_banks == 0,
                        rom_banks <= 256,
                        0x4000 * rom_banks <= raw_file@.len(),
                        switchable_banks@.len() == i - 1,
                        forall|k: int|
                            0 <= k < i - 1 ==> (#[trigger] switchable_banks@[k])@
                                == raw_file@.subrange(0x4000 * (k + 1), 0x4000 * (k + 1) + 0x4000),
                    decreases rom_banks - i,
                {
                    let start = 0x4000 * i;
                    let end = start + 0x4000;
                    switchable_banks.push(copy_range(&raw_file, start, end));
                    i = i + 1;
                }
                assert(Seq::new(switchable_banks@.len(), |i: int| switchable_banks@[i]@)
                    =~= image_banks(raw_file@, mbc, rom_banks));
            },
            _ => {
                assert(Seq::new(switchable_banks@.len(), |i: int| switchable_banks@[i]@)
                    =~= image_banks(raw_file@, mbc, rom_banks));
            },
        }
        Ok(
            Cartridge {
                title,
                gb_compatible: cgb_flag != 0xC0,
                mbc,
                ram,
                battery,
                timer,
                fixed_rom_bank,
                switchable_banks,
                current_bank: 0,
            },
        )
    }

    pub fn title(&self) -> (title: String)
        ensures
            title@ == self@.title,
    {
        self.title.clone()
    }

    /// A copy of the fixed ROM bank.
    pub fn bytes(&self) -> (bytes: Vec<u8>)
        ensures
            bytes@ == self@.fixed_rom_bank,
    {
        copy_range(&self.fixed_rom_bank, 0, self.fixed_rom_bank.len())
    }

    pub fn gb_compatible(&self) -> (compatible: bool)
        ensures
            compatible == self@.gb_compatible,
    {
        self.gb_compatible
    }

    /// The number of banks that can be switched into the window at
    /// 0x4000.
    pub fn rom_bank_count(&self) -> (count: usize)
        ensures
            count == self@.switchable_banks.len(),
    {
        self.switchable_banks.len()
    }

    pub fn mbc(&self) -> (mbc: Option<MBC>)
        ensures
            mbc == self@.mbc,
    {
        self.mbc
    }

    pub fn read(&self, addr: u16) -> (value: u8)
        ensures
            value == self@.read(addr),
    {
        if addr < 0x4000 {
            if (addr as usize) < self.fixed_rom_bank.len() {
                self.fixed_rom_bank[addr as usize]
            } else {
                0xFF
            }
        } else if addr < 0x8000 && self.current_bank < self.switchable_banks.len() {
            let bank = &self.switchable_banks[self.current_bank];
            let offset = (addr - 0x4000) as usize;
            if offset < bank.len() {
                bank[offset]
            } else {
                0xFF
            }
        } else {
            0xFF
        }
    }

    pub fn write(&mut self, addr: u16, value: u8)
        ensures
            final(self)@ == old(self)@.write(addr, value),
        no_unwind
    {
        if 0x2000 <= addr && addr <= 0x3FFF {
            self.set_rom_bank(value);
        }
    }

    pub fn set_rom_bank(&mut self, bank_number: u8)
        ensures
            final(self)@ == (CartridgeView { current_bank: selected_bank(bank_number), ..old(self)@ }),
        no_unwind
    {
        let low = bank_number & 0x1f;
        let bank_number = if low == 0 { 1 } else { low };
        self.current_bank = (bank_number - 1) as usize;
    }
}

} // verus!
