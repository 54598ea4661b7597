//! What a debugger wants to see of a running emulator: a log of the
//! last instructions, a dump of the memory, and pictures of the tiles and
//! of the background map.

use vstd::prelude::*;
use vstd::string::StringExecFns;
use std::collections::VecDeque;
use crate::bit_ops::{bit_of, BitOps};
use crate::frame_buffer::FrameBuffer;
use crate::hex::{binary_u8, hex_u16, hex_u8, push_binary_u8, push_hex_u16, push_hex_u8};
use crate::registers::Registers;
use crate::lcd::{lcd_address, LCDRegister};
use crate::memory::Bus;
use crate::ppu::{color_index, palette_color, Palette};

verus! {

/// The number of instructions that the call log keeps.
pub const CALL_LOG_HISTORY_LENGTH: usize = 10;

/// What a debugger can be asked to show or to write.
#[derive(Clone, Copy, Debug, PartialEq, Eq, Structural)]
pub enum DebugFlags {
    ShowTileMap,
    ShowRegisters,
    ShowMemView,
    DumpMem,
    DumpCallLog,
}

/// The line of the call log for one instruction: where it stands, its
/// mnemonic and its opcode byte.
pub open spec fn call_log_line(pc: u16, code: u8, mnemonic: Seq<char>) -> Seq<char> {
    "pc:0x"@ + hex_u16(pc) + " -> '"@ + mnemonic + "' (0x"@ + hex_u8(code) + ")"@
}

/// The lines of a call log, each followed by a line break, one after the
/// other.
pub open spec fn joined_lines(lines: Seq<Seq<char>>) -> Seq<char>
    decreases lines.len(),
{
    if lines.len() == 0 {
        Seq::empty()
    } else {
        joined_lines(lines.drop_last()) + lines.last() + "\n"@
    }
}

/// What a debugging context holds. The call log has the latest
/// instruction first.
pub struct DebugView {
    pub active: bool,
    pub flags: Seq<DebugFlags>,
    pub palette: Palette,
    pub call_log: Seq<Seq<char>>,
}

impl DebugView {
    /// Whether the call log is kept: the context is active and is asked
    /// to dump the call log or to show the registers.
    pub open spec fn logs_calls(self) -> bool {
        self.active && (self.flags.contains(DebugFlags::DumpCallLog) || self.flags.contains(
            DebugFlags::ShowRegisters,
        ))
    }

    /// The context after an instruction was logged: its line comes first,
    /// and of the lines before only the latest nine stay. A context that
    /// keeps no call log does not change.
    pub open spec fn logged(self, pc: u16, code: u8, mnemonic: Seq<char>) -> DebugView {
        if self.logs_calls() {
            let longer = seq![call_log_line(pc, code, mnemonic)] + self.call_log;
            DebugView {
                call_log: if longer.len() > CALL_LOG_HISTORY_LENGTH {
                    longer.drop_last()
                } else {
                    longer
                },
                ..self
            }
        } else {
            self
        }
    }

    /// The text of the call log, if it is kept.
    pub open spec fn call_log_dump(self) -> Option<Seq<char>> {
        if self.logs_calls() {
            Some("CALL LOG\n------------------------------------\n"@ + joined_lines(self.call_log))
        } else {
            None
        }
    }
}

/// The settings of a debugger and the log of the last instructions.
pub struct DebugCtx {
    active: bool,
    flags: Vec<DebugFlags>,
    palette: Palette,
    call_log: VecDeque<String>,
}

impl View for DebugCtx {
    type V = DebugView;

    closed spec fn view(&self) -> DebugView {
        DebugView {
            active: self.active,
            flags: self.flags@,
            palette: self.palette,
            call_log: Seq::new(self.call_log@.len(), |i: int| self.call_log@[i]@),
        }
    }
}

/// Whether a list of flags holds a flag.
pub fn has_flag(flags: &Vec<DebugFlags>, flag: DebugFlags) -> (found: bool)
    ensures
        found == flags@.contains(flag),
{
    let mut i: usize = 0;
    while i < flags.len()
        invariant
            i <= flags@.len(),
            forall|k: int| 0 <= k < i ==> flags@[k] != flag,
        decreases flags@.len() - i,
    {
        if flags[i] == flag {
            return true;
        }
        i = i + 1;
    }
    false
}

impl DebugCtx {
    /// A context with the given flags and an empty call log. It is active
    /// where any flag is given.
    pub fn new(flags: Vec<DebugFlags>, palette: Palette) -> (ctx: DebugCtx)
        ensures
            ctx@ == (DebugView {
                active: flags@.len() > 0,
                flags: flags@,
                palette,
                call_log: Seq::empty(),
            }),
    {
        let active = flags.len() > 0;
        let ctx = DebugCtx { active, flags, palette, call_log: VecDeque::new() };
        assert(ctx@.call_log =~= Seq::empty());
        ctx
    }

    pub fn activate(&mut self)
        ensures
            final(self)@ == (DebugView { active: true, ..old(self)@ }),
    {
        self.active = true
    }

    pub fn deactivate(&mut self)
        ensures
            final(self)@ == (DebugView { active: false, ..old(self)@ }),
    {
        self.active = false
    }

    /// Replaces the flags. Whether the context is active does not change.
    pub fn set_flags(&mut self, flags: Vec<DebugFlags>)
        ensures
            final(self)@ == (DebugView { flags: flags@, ..old(self)@ }),
    {
        self.flags = flags;
    }

    pub fn set_palette(&mut self, palette: Palette)
        ensures
            final(self)@ == (DebugView { palette, ..old(self)@ }),
    {
        self.palette = palette;
    }

    /// Whether the call log is kept.
    pub fn logs_calls(&self) -> (kept: bool)
        ensures
            kept == self@.logs_calls(),
    {
        self.active && (has_flag(&self.flags, DebugFlags::DumpCallLog) || has_flag(
            &self.flags,
            DebugFlags::ShowRegisters,
        ))
    }

    /// Logs an instruction.
    pub fn push_call_log(&mut self, pc: u16, code: u8, mnemonic: &str)
        ensures
            final(self)@ == old(self)@.logged(pc, code, mnemonic@),
    {
        if !self.logs_calls() {
            return ;
        }
        let mut msg = "pc:0x".to_string();
        push_hex_u16(&mut msg, pc);
        msg.append(" -> '");
        msg.append(mnemonic);
        msg.append("' (0x");
        push_hex_u8(&mut msg, code);
        msg.append(")");
        assert(msg@ =~= call_log_line(pc, code, mnemonic@));
        let ghost before = self@.call_log;
        self.call_log.push_front(msg);
        assert(self@.call_log =~= seq![call_log_line(pc, code, mnemonic@)] + before);
        if self.call_log.len() > CALL_LOG_HISTORY_LENGTH {
            let ghost longer = self@.call_log;
            self.call_log.pop_back();
            assert(self@.call_log =~= longer.drop_last());
        }
    }

    /// The call log as text, the latest instruction first; `None` where
    /// no call log is kept.
    pub fn create_call_log_dump(&self) -> (dump: Option<String>)
        ensures
            match dump {
                Some(text) => Some(text@),
                None => None,
            } == self@.call_log_dump(),
    {
        if !self.logs_calls() {
            return None;
        }
        let mut log = "CALL LOG\n------------------------------------\n".to_string();
        let mut i: usize = 0;
        while i < self.call_log.len()
            invariant
                i <= self@.call_log.len(),
                self@.call_log.len() == self.call_log@.len(),
                log@ == "CALL LOG\n------------------------------------\n"@ + joined_lines(
                    self@.call_log.subrange(0, i as int),
                ),
            decreases self@.call_log.len() - i,
        {
            let ghost before = self@.call_log.subrange(0, i as int);
            let ghost after = self@.call_log.subrange(0, i + 1);
            assert(after.drop_last() =~= before);
            assert(after.last() == self.call_log@[i as int]@);
            log.append(self.call_log[i].as_str());
            log.append("\n");
            i = i + 1;
            assert(log@ =~= "CALL LOG\n------------------------------------\n"@ + joined_lines(
                after,
            ));
        }
        assert(self@.call_log.subrange(0, i as int) =~= self@.call_log);
        Some(log)
    }
}

/// A text with every character `from` replaced by the text `to`.
pub open spec fn replaced(text: Seq<char>, from: char, to: Seq<char>) -> Seq<char>
    decreases text.len(),
{
    if text.len() == 0 {
        Seq::empty()
    } else {
        replaced(text.drop_last(), from, to) + (if text.last() == from {
            to
        } else {
            seq![text.last()]
        })
    }
}

/// `str::replace` of the standard library, with a character as the
/// pattern: it gives the text in which every occurrence of the character
/// is replaced by the replacement, and nothing else is changed.
#[verifier::external_body]
fn replace_char(text: &str, from: char, to: &str) -> (result: String)
    ensures
        result@ == replaced(text@, from, to@),
{
    text.replace(from, to)
}

/// The name of the file that a crash log written at the time `now` goes
/// to: blanks and full stops of the time become underscores, colons
/// become hyphens.
pub open spec fn crash_log_name(now: Seq<char>) -> Seq<char> {
    "crash_log"@ + replaced(replaced(replaced(now, ' ', "_"@), ':', "-"@), '.', "_"@)
}

/// The name of the file that a crash log written at the time `now` goes
/// to.
pub fn log_name(now: &str) -> (name: String)
    ensures
        name@ == crash_log_name(now@),
{
    let spaced = replace_char(now, ' ', "_");
    let coloned = replace_char(spaced.as_str(), ':', "-");
    let dotted = replace_char(coloned.as_str(), '.', "_");
    let mut name = "crash_log".to_string();
    name.append(dotted.as_str());
    name
}

/// The grey whose red, green and blue are all `byte`.
pub open spec fn grey(byte: u8) -> u32 {
    ((byte as u32) << 16) | ((byte as u32) << 8) | (byte as u32)
}

/// The line of the register window for one register: its name, a colon
/// and its value in hexadecimal.
pub open spec fn register_line(name: Seq<char>, value: u8) -> Seq<char> {
    name + ":0x"@ + hex_u8(value)
}

/// The lines of the register window: A and then the bits of F, and then
/// B, C, D, E, H and L.
pub open spec fn register_lines(reg: Registers) -> Seq<Seq<char>> {
    seq![
        register_line("a"@, reg.a),
        "f:0b"@ + binary_u8(reg.f),
        register_line("b"@, reg.b),
        register_line("c"@, reg.c),
        register_line("d"@, reg.d),
        register_line("e"@, reg.e),
        register_line("h"@, reg.h),
        register_line("l"@, reg.l),
    ]
}

/// The line of the register window for one register.
fn register_text(name: &str, value: u8) -> (line: String)
    ensures
        line@ == register_line(name@, value),
{
    let mut line = name.to_string();
    line.append(":0x");
    push_hex_u8(&mut line, value);
    line
}

/// The lines of the register window.
pub fn register_window_text(reg: &Registers) -> (lines: Vec<String>)
    ensures
        lines@.len() == 8,
        forall|i: int| 0 <= i < 8 ==> (#[trigger] lines@[i])@ == register_lines(*reg)[i],
{
    let mut flags = "f:0b".to_string();
    push_binary_u8(&mut flags, reg.f);
    let mut lines: Vec<String> = Vec::new();
    lines.push(register_text("a", reg.a));
    lines.push(flags);
    lines.push(register_text("b", reg.b));
    lines.push(register_text("c", reg.c));
    lines.push(register_text("d", reg.d));
    lines.push(register_text("e", reg.e));
    lines.push(register_text("h", reg.h));
    lines.push(register_text("l", reg.l));
    lines
}

/// The picture of the memory: one pixel for each address, in the grey
/// of the byte that it holds.
pub fn render_memory_viewer<B: Bus>(bus: &B) -> (picture: Vec<u32>)
    ensures
        picture@.len() == 0x10000,
        forall|addr: int|
            0 <= addr < 0x10000 ==> #[trigger] picture@[addr] == grey(B::peek(bus@, addr as u16)),
{
    let mut buff: Vec<u32> = Vec::new();
    let mut i: u32 = 0;
    while i <= 0xFFFF
        invariant
            i <= 0x10000,
            buff@.len() == i,
            forall|addr: int|
                0 <= addr < i ==> #[trigger] buff@[addr] == grey(B::peek(bus@, addr as u16)),
        decreases 0x10000 - i,
    {
        let byte = bus.read_u8(i as u16);
        let color: u32 = ((byte as u32) << 16) | ((byte as u32) << 8) | byte as u32;
        buff.push(color);
        i = i + 1;
    }
    buff
}

/// The address at which the tile data begin.
pub const TILE_DATA_START: u16 = 0x8000;

/// The width and the height of the picture of the tiles: 16 tiles by 24.
pub const TILES_WIDTH: usize = 128;

pub const TILES_HEIGHT: usize = 192;

/// The width and the height of the picture of the background map: 32
/// tiles by 32.
pub const MAP_SIZE: usize = 256;

/// The colour index of the pixel in column `x` of row `y` of a tile
/// whose 16 bytes are given: each row has two bytes, the low bits first,
/// and the leftmost pixel is bit 7.
pub open spec fn tile_pixel(bytes: Seq<u8>, x: int, y: int) -> u8 {
    color_index(bytes[2 * y], bytes[2 * y + 1], (7 - x) as u8)
}

/// The 64 colour indices of a tile, row by row.
pub open spec fn tile_pixels(bytes: Seq<u8>) -> Seq<u8> {
    Seq::new(64, |k: int| tile_pixel(bytes, k % 8, k / 8))
}

/// A tile of 8 by 8 pixels.
pub struct Tile {
    data: [u8; 64],
}

impl View for Tile {
    type V = Seq<u8>;

    /// The colour indices of the tile, row by row.
    closed spec fn view(&self) -> Seq<u8> {
        self.data@
    }
}

impl Tile {
    /// Decodes a tile from its 16 bytes.
    pub fn from(tile_data: &[u8]) -> (tile: Tile)
        requires
            tile_data@.len() >= 16,
        ensures
            tile@ == tile_pixels(tile_data@),
    {
        let mut tile: [u8; 64] = [0; 64];
        let mut ptr: usize = 0;
        while ptr < 64
            invariant
                ptr <= 64,
                tile_data@.len() >= 16,
                forall|k: int| 0 <= k < ptr ==> tile@[k] == tile_pixel(tile_data@, k % 8, k / 8),
            decreases 64 - ptr,
        {
            let row = ptr / 8;
            let bit = (7 - ptr % 8) as u8;
            let lo = tile_data[2 * row].get_bit(bit);
            let hi = tile_data[2 * row + 1].get_bit(bit);
            tile[ptr] = (hi << 1) | lo;
            ptr = ptr + 1;
        }
        assert(tile@ =~= tile_pixels(tile_data@));
        Tile { data: tile }
    }

    pub fn get_data(&self) -> (data: [u8; 64])
        ensures
            data@ == self@,
    {
        self.data
    }

    /// Decodes the tiles that follow each other in `data`, 16 bytes each.
    pub fn parse_tile_data(data: Vec<u8>) -> (tiles: Vec<Tile>)
        requires
            data@.len() % 16 == 0,
        ensures
            tiles@.len() == data@.len() / 16,
            forall|t: int|
                0 <= t < tiles@.len() ==> (#[trigger] tiles@[t])@ == tile_pixels(
                    data@.subrange(16 * t, 16 * t + 16),
                ),
    {
        let mut tiles: Vec<Tile> = Vec::new();
        let mut i: usize = 0;
        while i < data.len()
            invariant
                i <= data@.len(),
                i % 16 == 0,
                data@.len() % 16 == 0,
                tiles@.len() == i / 16,
                forall|t: int|
                    0 <= t < tiles@.len() ==> (#[trigger] tiles@[t])@ == tile_pixels(
                        data@.subrange(16 * t, 16 * t + 16),
                    ),
            decreases data@.len() - i,
        {
            let tile_end = i + 16;
            let tile = Tile::from(vstd::slice::slice_subrange(data.as_slice(), i, tile_end));
            tiles.push(tile);
            i += 16;
        }
        tiles
    }
}

/// The heading that the memory dump puts in front of the first cell of a
/// region.
pub open spec fn region_heading(addr: u16) -> Seq<char> {
    match addr {
        0x4000 => "\n16 KiB ROM Bank 01-NN"@,
        0x8000 => "\nVRAM"@,
        0xA000 => "\n8 KiB external RAM"@,
        0xC000 => "\n4 KiB WRAM"@,
        0xD000 => "\n4 KiB WRAM"@,
        0xE000 => "\nEcho RAM"@,
        0xFE00 => "\nObject attribute memory (OAM)"@,
        0xFEA0 => "\n NOT USEABLE"@,
        0xFF00 => "\nI/O Registers"@,
        0xFF80 => "\nHigh RAM / HRAM"@,
        _ => Seq::empty(),
    }
}

/// What the memory dump puts in front of a cell: a new line and the
/// address at every 32nd cell, the address at every 16th, a blank at
/// every eighth.
pub open spec fn cell_lead(addr: u16) -> Seq<char> {
    if addr % 32 == 0 {
        "\n|0x"@ + hex_u16(addr) + "| "@
    } else if addr % 16 == 0 {
        "|0x"@ + hex_u16(addr) + "| "@
    } else if addr % 8 == 0 {
        " "@
    } else {
        Seq::empty()
    }
}

/// The text of one cell of the memory dump.
pub open spec fn dumped_cell<B: Bus>(mem: B::V, addr: u16) -> Seq<char> {
    region_heading(addr) + cell_lead(addr) + hex_u8(B::peek(mem, addr)) + " "@
}

/// The text of the first `count` cells of the memory dump.
pub open spec fn dumped_cells<B: Bus>(mem: B::V, count: nat) -> Seq<char>
    decreases count,
{
    if count == 0 {
        Seq::empty()
    } else {
        dumped_cells::<B>(mem, (count - 1) as nat) + dumped_cell::<B>(mem, (count - 1) as u16)
    }
}

/// The title of the memory dump.
pub open spec fn mem_dump_title() -> Seq<char> {
    "\nMEMORY DUMP\n------------------------------------"@
        + "\n16KiB ROM Bank 00 | BOOT ROM $0000 - $00FF"@
}

/// The colour of the pixel in column `x` of row `y` of the picture of
/// the tiles: the tiles stand 16 to a row in the order of their
/// addresses.
pub open spec fn tiles_picture_pixel<B: Bus>(mem: B::V, palette: Palette, x: int, y: int) -> u32 {
    let tile = (y / 8) * 16 + x / 8;
    let row = (TILE_DATA_START + 16 * tile + 2 * (y % 8)) as u16;
    palette_color(
        palette,
        color_index(B::peek(mem, row), B::peek(mem, (row + 1) as u16), (7 - x % 8) as u8),
    )
}

/// The colour of the pixel in column `x` of row `y` of the picture of
/// the background map. The map that LCDC bit 3 selects gives the number
/// of each tile; the tile data are taken from 0x8000 on.
pub open spec fn map_picture_pixel<B: Bus>(mem: B::V, palette: Palette, x: int, y: int) -> u32 {
    let base = if bit_of(B::peek(mem, lcd_address(LCDRegister::Lcdc)), 3) == 0 {
        0x9800int
    } else {
        0x9C00int
    };
    let tile_number = B::peek(mem, (base + (y / 8) * 32 + x / 8) as u16);
    let row = (TILE_DATA_START + 16 * tile_number + 2 * (y % 8)) as u16;
    palette_color(
        palette,
        color_index(B::peek(mem, row), B::peek(mem, (row + 1) as u16), (7 - x % 8) as u8),
    )
}

/// The colour that a colour index stands for.
pub fn color_of(palette: Palette, index: u8) -> (color: u32)
    ensures
        color == palette_color(palette, index),
{
    match index {
        0 => palette.0,
        1 => palette.1,
        2 => palette.2,
        _ => palette.3,
    }
}

/// The colour of pixel `x` of a tile row that starts at `row`.
fn row_pixel<B: Bus>(bus: &B, palette: Palette, row: u16, x: usize) -> (color: u32)
    requires
        x < 8,
        row < 0xFFFF,
    ensures
        color == palette_color(
            palette,
            color_index(B::peek(bus@, row), B::peek(bus@, (row + 1) as u16), (7 - x) as u8),
        ),
{
    let bit = (7 - x) as u8;
    let lo = bus.read_u8(row).get_bit(bit);
    let hi = bus.read_u8(row + 1).get_bit(bit);
    color_of(palette, (hi << 1) | lo)
}

/// Appends the heading of the region that begins at `addr`, if one
/// begins there.
fn push_region_heading(text: &mut String, addr: u16)
    ensures
        final(text)@ == old(text)@ + region_heading(addr),
{
    match addr {
        0x4000 => text.append("\n16 KiB ROM Bank 01-NN"),
        0x8000 => text.append("\nVRAM"),
        0xA000 => text.append("\n8 KiB external RAM"),
        0xC000 => text.append("\n4 KiB WRAM"),
        0xD000 => text.append("\n4 KiB WRAM"),
        0xE000 => text.append("\nEcho RAM"),
        0xFE00 => text.append("\nObject attribute memory (OAM)"),
        0xFEA0 => text.append("\n NOT USEABLE"),
        0xFF00 => text.append("\nI/O Registers"),
        0xFF80 => text.append("\nHigh RAM / HRAM"),
        _ => (),
    }
    assert(text@ =~= old(text)@ + region_heading(addr));
}

/// Appends what stands in front of the cell at `addr`.
fn push_cell_lead(text: &mut String, addr: u16)
    ensures
        final(text)@ == old(text)@ + cell_lead(addr),
{
    if addr % 32 == 0 {
        text.append("\n|0x");
        push_hex_u16(text, addr);
        text.append("| ");
    } else if addr % 16 == 0 {
        text.append("|0x");
        push_hex_u16(text, addr);
        text.append("| ");
    } else if addr % 8 == 0 {
        text.append(" ");
    }
    assert(text@ =~= old(text)@ + cell_lead(addr));
}

/// Appends the cell at `addr` to a memory dump.
fn push_dumped_cell<B: Bus>(text: &mut String, bus: &B, addr: u16)
    ensures
        final(text)@ == old(text)@ + dumped_cell::<B>(bus@, addr),
{
    push_region_heading(text, addr);
    push_cell_lead(text, addr);
    let byte: u8 = bus.read_u8(addr);
    push_hex_u8(text, byte);
    text.append(" ");
    assert(text@ =~= old(text)@ + dumped_cell::<B>(bus@, addr));
}

impl DebugCtx {
    /// The memory as text, 32 cells to a line, every region under its
    /// heading; `None` where the context is not active or is not asked to
    /// dump the memory.
    pub fn create_mem_dump<B: Bus>(&self, bus: &B) -> (dump: Option<String>)
        ensures
            match dump {
                Some(text) => {
                    &&& self@.active && self@.flags.contains(DebugFlags::DumpMem)
                    &&& text@ == mem_dump_title() + dumped_cells::<B>(bus@, 0x10000)
                },
                None => !(self@.active && self@.flags.contains(DebugFlags::DumpMem)),
            },
    {
        if !self.active || !has_flag(&self.flags, DebugFlags::DumpMem) {
            return None;
        }
        let mut mem_log: String = String::new();
        mem_log.append("\nMEMORY DUMP\n------------------------------------");
        mem_log.append("\n16KiB ROM Bank 00 | BOOT ROM $0000 - $00FF");
        assert(mem_log@ =~= mem_dump_title() + dumped_cells::<B>(bus@, 0));
        let mut i: u32 = 0;
        while i <= 0xFFFF
            invariant
                i <= 0x10000,
                mem_log@ == mem_dump_title() + dumped_cells::<B>(bus@, i as nat),
            decreases 0x10000 - i,
        {
            let addr = i as u16;
            let ghost before = mem_log@;
            push_dumped_cell(&mut mem_log, bus, addr);
            i = i + 1;
            assert(mem_log@ =~= mem_dump_title() + dumped_cells::<B>(bus@, i as nat)) by {
                assert(dumped_cells::<B>(bus@, i as nat) == dumped_cells::<B>(bus@, (i - 1) as nat)
                    + dumped_cell::<B>(bus@, addr));
            }
        }
        Some(mem_log)
    }

    /// What a crash log holds: the call log and then the memory dump, as
    /// far as the context keeps them; `None` where it keeps neither.
    pub fn dump_logs<B: Bus>(&self, bus: &B) -> (log: Option<String>)
        ensures
            match log {
                Some(text) => text@.len() > 0 && text@ == (match self@.call_log_dump() {
                    Some(calls) => calls,
                    None => Seq::empty(),
                }) + (if self@.active && self@.flags.contains(DebugFlags::DumpMem) {
                    mem_dump_title() + dumped_cells::<B>(bus@, 0x10000)
                } else {
                    Seq::empty()
                }),
                None => self@.call_log_dump() is None && !(self@.active && self@.flags.contains(
                    DebugFlags::DumpMem,
                )),
            },
    {
        let calls = self.create_call_log_dump();
        let memory = self.create_mem_dump(bus);
        proof {
            reveal_strlit("CALL LOG\n------------------------------------\n");
            reveal_strlit("\nMEMORY DUMP\n------------------------------------");
        }
        match (calls, memory) {
            (None, None) => None,
            (Some(calls), None) => {
                assert(calls@ =~= calls@ + Seq::<char>::empty());
                Some(calls)
            },
            (None, Some(memory)) => {
                assert(memory@ =~= Seq::<char>::empty() + memory@);
                Some(memory)
            },
            (Some(calls), Some(memory)) => {
                let mut log = calls;
                log.append(memory.as_str());
                Some(log)
            },
        }
    }

    /// The picture of the 384 tiles of the tile data, 16 tiles to a row,
    /// in the colours of the palette.
    pub fn render_tiles<B: Bus>(&self, bus: &B) -> (picture: FrameBuffer)
        ensures
            picture@.width == TILES_WIDTH,
            picture@.height == TILES_HEIGHT,
            picture@.pixels.len() == TILES_WIDTH * TILES_HEIGHT,
            forall|x: int, y: int|
                0 <= x < TILES_WIDTH && 0 <= y < TILES_HEIGHT ==> #[trigger] picture@.pixels[y
                    * TILES_WIDTH + x] == tiles_picture_pixel::<B>(bus@, self@.palette, x, y),
    {
        let mut buff = FrameBuffer::new(TILES_WIDTH, TILES_HEIGHT);
        let mut pos: usize = 0;
        while pos < TILES_WIDTH * TILES_HEIGHT
            invariant
                pos <= TILES_WIDTH * TILES_HEIGHT,
                buff@.width == TILES_WIDTH,
                buff@.height == TILES_HEIGHT,
                buff@.pixels.len() == TILES_WIDTH * TILES_HEIGHT,
                forall|k: int|
                    0 <= k < pos ==> #[trigger] buff@.pixels[k] == tiles_picture_pixel::<B>(
                        bus@,
                        self@.palette,
                        k % (TILES_WIDTH as int),
                        k / (TILES_WIDTH as int),
                    ),
            decreases TILES_WIDTH * TILES_HEIGHT - pos,
        {
            let x = pos % TILES_WIDTH;
            let y = pos / TILES_WIDTH;
            let tile = (y / 8) * 16 + x / 8;
            let row = (TILE_DATA_START as usize + 16 * tile + 2 * (y % 8)) as u16;
            let color = row_pixel(bus, self.palette, row, x % 8);
            buff.write(pos, color);
            pos = pos + 1;
        }
        assert forall|x: int, y: int| 0 <= x < TILES_WIDTH && 0 <= y < TILES_HEIGHT implies #[trigger] buff@.pixels[y
            * TILES_WIDTH + x] == tiles_picture_pixel::<B>(bus@, self@.palette, x, y) by {
            let k = y * TILES_WIDTH + x;
            assert(k % (TILES_WIDTH as int) == x && k / (TILES_WIDTH as int) == y) by (nonlinear_arith)
                requires
                    k == y * 128 + x,
                    0 <= x < 128,
                    0 <= y,
                    TILES_WIDTH == 128,
            ;
            assert(0 <= k < TILES_WIDTH * TILES_HEIGHT) by (nonlinear_arith)
                requires
                    k == y * 128 + x,
                    0 <= x < 128,
                    0 <= y < 192,
                    TILES_WIDTH == 128,
                    TILES_HEIGHT == 192,
            ;
        }
        buff
    }

    /// The picture of the whole background map, 32 tiles by 32, in the
    /// colours of the palette.
    pub fn render_background_map<B: Bus>(&self, bus: &B) -> (picture: FrameBuffer)
        ensures
            picture@.width == MAP_SIZE,
            picture@.height == MAP_SIZE,
            picture@.pixels.len() == MAP_SIZE * MAP_SIZE,
            forall|x: int, y: int|
                0 <= x < MAP_SIZE && 0 <= y < MAP_SIZE ==> #[trigger] picture@.pixels[y * MAP_SIZE
                    + x] == map_picture_pixel::<B>(bus@, self@.palette, x, y),
    {
        let mut buff = FrameBuffer::new(MAP_SIZE, MAP_SIZE);
        let mut pos: usize = 0;
        while pos < MAP_SIZE * MAP_SIZE
            invariant
                pos <= MAP_SIZE * MAP_SIZE,
                buff@.width == MAP_SIZE,
                buff@.height == MAP_SIZE,
                buff@.pixels.len() == MAP_SIZE * MAP_SIZE,
                forall|k: int|
                    0 <= k < pos ==> #[trigger] buff@.pixels[k] == map_picture_pixel::<B>(
                        bus@,
                        self@.palette,
                        k % (MAP_SIZE as int),
                        k / (MAP_SIZE as int),
                    ),
            decreases MAP_SIZE * MAP_SIZE - pos,
        {
            let x = pos % MAP_SIZE;
            let y = pos / MAP_SIZE;
            let lcdc = bus.read_u8(LCDRegister::Lcdc.into());
            let tile_num_base: usize = if lcdc.get_bit(3) == 0 { 0x9800 } else { 0x9C00 };
            let tile_number = bus.read_u8((tile_num_base + (y / 8) * 32 + x / 8) as u16);
            let row = (TILE_DATA_START as usize + 16 * (tile_number as usize) + 2 * (y % 8)) as u16;
            let color = row_pixel(bus, self.palette, row, x % 8);
            buff.write(pos, color);
            pos = pos + 1;
        }
        assert forall|x: int, y: int| 0 <= x < MAP_SIZE && 0 <= y < MAP_SIZE implies #[trigger] buff@.pixels[y
            * MAP_SIZE + x] == map_picture_pixel::<B>(bus@, self@.palette, x, y) by {
            let k = y * MAP_SIZE + x;
            assert(k % (MAP_SIZE as int) == x && k / (MAP_SIZE as int) == y) by (nonlinear_arith)
                requires
                    k == y * 256 + x,
                    0 <= x < 256,
                    0 <= y,
                    MAP_SIZE == 256,
            ;
            assert(0 <= k < MAP_SIZE * MAP_SIZE) by (nonlinear_arith)
                requires
                    k == y * 256 + x,
                    0 <= x < 256,
                    0 <= y < 256,
                    MAP_SIZE == 256,
            ;
        }
        buff
    }
}

} // verus!
