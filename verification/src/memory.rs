//! The memory bus: one 16-bit address space shared by the processor and the
//! pixel pipeline.

use vstd::prelude::*;
use core::ops::Range;
use crate::cartridge::{Cartridge, CartridgeView};
use crate::errors::MemError;
use crate::registers::pair;

pub mod laws;

verus! {

/// The divider register: a write of any value resets it to 0.
pub const DIV: u16 = 0xFF04;

/// A write to this register unmaps the boot ROM for good.
pub const BOOT_ROM_DISABLE: u16 = 0xFF50;

/// The interrupt-enable byte.
pub const INTERRUPT_ENABLE: u16 = 0xFFFF;

/// The number of addresses from `start` up to but not including `end`:
/// none where `end` is not after `start`.
pub open spec fn range_len(start: u16, end: u16) -> nat {
    if start <= end {
        (end - start) as nat
    } else {
        0
    }
}

/// A byte-addressed bus over the addresses 0x0000 to 0xFFFF.
///
/// The view of a bus is its whole state. `peek` says which byte a read of
/// an address returns in a state, `poke` which state a write leaves.
pub trait Bus: View + Sized {
    /// The byte that reading `addr` returns in state `state`.
    spec fn peek(state: Self::V, addr: u16) -> u8;

    /// The state that writing `value` to `addr` in state `state` leaves.
    spec fn poke(state: Self::V, addr: u16, value: u8) -> Self::V;

    /// The state that `clear` leaves.
    spec fn cleared(state: Self::V) -> Self::V;

    /// The state that inserting a cartridge leaves.
    spec fn with_cartridge(state: Self::V, cartridge: CartridgeView) -> Self::V;

    /// The number of addresses that the bus answers, counted from 0.
    spec fn size(state: Self::V) -> nat;

    /// The state after the timer has moved the divider register on by
    /// one, from 255 to 0. The timer reaches the register directly: what
    /// a write through the bus does to it plays no part.
    spec fn divider_stepped(state: Self::V) -> Self::V;

    fn read_u8(&self, addr: u16) -> (value: u8)
        ensures
            value == Self::peek(self@, addr),
    ;

    fn write_u8(&mut self, addr: u16, value: u8)
        ensures
            final(self)@ == Self::poke(old(self)@, addr, value),
    ;

    /// Reads a little-endian word: the low byte at `addr`, the high byte at
    /// the address after it, which for 0xFFFF is 0x0000.
    fn read_u16(&self, addr: u16) -> (value: u16)
        ensures
            value == pair(Self::peek(self@, addr.wrapping_add(1)), Self::peek(self@, addr)),
    ;

    /// Puts the writable memory back to its initial contents.
    fn clear(&mut self)
        ensures
            final(self)@ == Self::cleared(old(self)@),
    ;

    /// Reads the bytes of an address range, in the order of their
    /// addresses. Fails where the range ends past the addressable size.
    fn get_range(&self, range: Range<u16>) -> (bytes: Result<Vec<u8>, MemError>)
        ensures
            match bytes {
                Ok(bytes) => {
                    &&& range.end <= Self::size(self@)
                    &&& bytes@.len() == range_len(range.start, range.end)
                    &&& forall|i: int|
                        0 <= i < bytes@.len() ==> bytes@[i] == Self::peek(
                            self@,
                            (range.start + i) as u16,
                        )
                },
                Err(e) => range.end > Self::size(self@) && e == MemError::OutOfRange,
            },
    ;

    fn load_cartridge(&mut self, cartridge: Cartridge)
        ensures
            final(self)@ == Self::with_cartridge(old(self)@, cartridge@),
    ;

    /// Moves the divider register on by one, as the timer does.
    fn step_divider(&mut self)
        ensures
            final(self)@ == Self::divider_stepped(old(self)@),
    ;
}

/// Whether `addr` is plain memory in a state: a write to it changes what a
/// read of it returns, and what no other read returns.
pub open spec fn plain_at<B: Bus>(state: B::V, addr: u16) -> bool {
    forall|value: u8, other: u16|
        #[trigger] B::peek(B::poke(state, addr, value), other) == (if other == addr {
            value
        } else {
            B::peek(state, other)
        })
}

/// The state of the console's bus: every region of memory, the cartridge
/// and whether the boot ROM still overlays the start of the address space.
pub struct DmgState {
    pub boot_rom: Seq<u8>,
    pub boot_rom_active: bool,
    pub cartridge: Option<CartridgeView>,
    pub vram: Seq<u8>,
    pub ram: Seq<u8>,
    pub work_ram: Seq<u8>,
    pub oam: Seq<u8>,
    pub io_registers: Seq<u8>,
    pub hram: Seq<u8>,
}

/// A region of `len` bytes that all hold `value`.
pub open spec fn filled(len: nat, value: u8) -> Seq<u8> {
    Seq::new(len, |i: int| value)
}

impl DmgState {
    /// Whether a read of `addr` is answered by the boot ROM.
    pub open spec fn boot_rom_answers(self, addr: u16) -> bool {
        self.boot_rom_active && addr < 0x100 && addr < self.boot_rom.len()
    }

    /// The byte that a read of `addr` returns.
    ///
    /// The boot ROM answers below 0x0100 while it is mapped. Behind it lie
    /// the cartridge (0x0000..=0x7FFF, 0xFF without a cartridge), video
    /// RAM, external RAM, work RAM and its echo at 0xE000, object memory,
    /// a gap that reads 0, the I/O registers and high RAM.
    pub open spec fn read(self, addr: u16) -> u8 {
        if self.boot_rom_answers(addr) {
            self.boot_rom[addr as int]
        } else if addr <= 0x7FFF {
            match self.cartridge {
                Some(cartridge) => cartridge.read(addr),
                None => 0xFF,
            }
        } else if addr <= 0x9FFF {
            self.vram[addr - 0x8000]
        } else if addr <= 0xBFFF {
            self.ram[addr - 0xA000]
        } else if addr <= 0xDFFF {
            self.work_ram[addr - 0xC000]
        } else if addr <= 0xFDFF {
            self.work_ram[addr - 0xE000]
        } else if addr <= 0xFE9F {
            self.oam[addr - 0xFE00]
        } else if addr <= 0xFEFF {
            0x00
        } else if addr <= 0xFF7F {
            self.io_registers[addr - 0xFF00]
        } else {
            self.hram[addr - 0xFF80]
        }
    }

    /// The state after `value` was written to `addr`.
    ///
    /// A write to the divider stores 0 whatever the value. A write to
    /// 0xFF50 unmaps the boot ROM, besides storing the value. A write below
    /// 0x8000 goes to the cartridge, which takes it as a bank selection or
    /// ignores it; a write to the gap at 0xFEA0 is lost.
    pub open spec fn write(self, addr: u16, value: u8) -> DmgState {
        let value = if addr == DIV { 0u8 } else { value };
        let state = DmgState {
            boot_rom_active: self.boot_rom_active && addr != BOOT_ROM_DISABLE,
            ..self
        };
        if addr <= 0x7FFF {
            DmgState {
                cartridge: match state.cartridge {
                    Some(cartridge) => Some(cartridge.write(addr, value)),
                    None => None,
                },
                ..state
            }
        } else if addr <= 0x9FFF {
            DmgState { vram: state.vram.update(addr - 0x8000, value), ..state }
        } else if addr <= 0xBFFF {
            DmgState { ram: state.ram.update(addr - 0xA000, value), ..state }
        } else if addr <= 0xDFFF {
            DmgState { work_ram: state.work_ram.update(addr - 0xC000, value), ..state }
        } else if addr <= 0xFDFF {
            DmgState { work_ram: state.work_ram.update(addr - 0xE000, value), ..state }
        } else if addr <= 0xFE9F {
            DmgState { oam: state.oam.update(addr - 0xFE00, value), ..state }
        } else if addr <= 0xFEFF {
            state
        } else if addr <= 0xFF7F {
            DmgState { io_registers: state.io_registers.update(addr - 0xFF00, value), ..state }
        } else {
            DmgState { hram: state.hram.update(addr - 0xFF80, value), ..state }
        }
    }

    /// The state of a bus that was just made: the boot ROM is mapped,
    /// there is no cartridge, and every writable region is filled with
    /// 0xFF.
    pub open spec fn fresh(boot_rom: Seq<u8>) -> DmgState {
        DmgState {
            boot_rom,
            boot_rom_active: true,
            cartridge: None,
            vram: filled(0x2000, 0xFF),
            ram: filled(0x2000, 0xFF),
            work_ram: filled(0x2000, 0xFF),
            oam: filled(0xA0, 0xFF),
            io_registers: filled(0x80, 0xFF),
            hram: filled(0x80, 0xFF),
        }
    }

    /// The state with every writable region filled with 0xFF. The boot
    /// ROM, its mapping and the cartridge stay.
    pub open spec fn reset(self) -> DmgState {
        DmgState {
            vram: filled(0x2000, 0xFF),
            ram: filled(0x2000, 0xFF),
            work_ram: filled(0x2000, 0xFF),
            oam: filled(0xA0, 0xFF),
            io_registers: filled(0x80, 0xFF),
            hram: filled(0x80, 0xFF),
            ..self
        }
    }

    /// Every region has its length.
    pub open spec fn wf(self) -> bool {
        &&& self.vram.len() == 0x2000
        &&& self.ram.len() == 0x2000
        &&& self.work_ram.len() == 0x2000
        &&& self.oam.len() == 0xA0
        &&& self.io_registers.len() == 0x80
        &&& self.hram.len() == 0x80
    }
}

/// The bus of the console.
pub struct DMGBus {
    boot_rom: Vec<u8>,
    vram: Vec<u8>,
    ram: Vec<u8>,
    work_ram: Vec<u8>,
    oam: Vec<u8>,
    io_registers: Vec<u8>,
    hram: Vec<u8>,
    cartridge: Option<Cartridge>,
    boot_rom_active: bool,
}

impl View for DMGBus {
    type V = DmgState;

    closed spec fn view(&self) -> DmgState {
        DmgState {
            boot_rom: self.boot_rom@,
            boot_rom_active: self.boot_rom_active,
            cartridge: slot_view(self.cartridge),
            vram: self.vram@,
            ram: self.ram@,
            work_ram: self.work_ram@,
            oam: self.oam@,
            io_registers: self.io_registers@,
            hram: self.hram@,
        }
    }
}

/// The view of a cartridge slot.
pub open spec fn slot_view(slot: Option<Cartridge>) -> Option<CartridgeView> {
    match slot {
        Some(cartridge) => Some(cartridge@),
        None => None,
    }
}

/// Hands a write below 0x8000 to the cartridge in the slot, if there is
/// one.
fn write_to_slot(slot: &mut Option<Cartridge>, addr: u16, value: u8)
    ensures
        slot_view(*final(slot)) == match slot_view(*old(slot)) {
            Some(cartridge) => Some(cartridge.write(addr, value)),
            None => None,
        },
    no_unwind
{
    match slot {
        Some(cartridge) => cartridge.write(addr, value),
        None => (),
    }
}

impl DMGBus {
    #[verifier::type_invariant]
    spec fn inv(self) -> bool {
        self@.wf()
    }

    /// A bus with the given boot ROM mapped over the start of the address
    /// space, no cartridge, and every writable region filled with 0xFF.
    /// Of a boot ROM longer than 256 bytes only the first 256 are ever
    /// read.
    pub fn new(boot_rom: Vec<u8>) -> (bus: DMGBus)
        ensures
            bus@ == DmgState::fresh(boot_rom@),
    {
        let bus = DMGBus {
            boot_rom,
            vram: vec![0xFFu8; 0x2000],
            ram: vec![0xFFu8; 0x2000],
            work_ram: vec![0xFFu8; 0x2000],
            oam: vec![0xFFu8; 0x00A0],
            io_registers: vec![0xFFu8; 0x0080],
            hram: vec![0xFFu8; 0x0080],
            cartridge: None,
            boot_rom_active: true,
        };
        assert(bus.vram@ =~= filled(0x2000, 0xFF));
        assert(bus.ram@ =~= filled(0x2000, 0xFF));
        assert(bus.work_ram@ =~= filled(0x2000, 0xFF));
        assert(bus.oam@ =~= filled(0xA0, 0xFF));
        assert(bus.io_registers@ =~= filled(0x80, 0xFF));
        assert(bus.hram@ =~= filled(0x80, 0xFF));
        bus
    }
}

impl Bus for DMGBus {
    open spec fn peek(state: DmgState, addr: u16) -> u8 {
        state.read(addr)
    }

    open spec fn poke(state: DmgState, addr: u16, value: u8) -> DmgState {
        state.write(addr, value)
    }

    open spec fn cleared(state: DmgState) -> DmgState {
        state.reset()
    }

    open spec fn with_cartridge(state: DmgState, cartridge: CartridgeView) -> DmgState {
        DmgState { cartridge: Some(cartridge), ..state }
    }

    open spec fn size(state: DmgState) -> nat {
        0x10000
    }

    open spec fn divider_stepped(state: DmgState) -> DmgState {
        DmgState {
            io_registers: state.io_registers.update(
                DIV - 0xFF00,
                state.io_registers[DIV - 0xFF00].wrapping_add(1),
            ),
            ..state
        }
    }

    fn read_u8(&self, addr: u16) -> (value: u8) {
        proof {
            use_type_invariant(self);
        }
        if self.boot_rom_active && addr < 0x100 && (addr as usize) < self.boot_rom.len() {
            return self.boot_rom[addr as usize];
        }
        if addr <= 0x7FFF {
            match &self.cartridge {
                Some(cartridge) => cartridge.read(addr),
                None => 0xFF,
            }
        } else if addr <= 0x9FFF {
            self.vram[addr as usize - 0x8000]
        } else if addr <= 0xBFFF {
            self.ram[addr as usize - 0xA000]
        } else if addr <= 0xDFFF {
            self.work_ram[addr as usize - 0xC000]
        } else if addr <= 0xFDFF {
            self.work_ram[addr as usize - 0xE000]
        } else if addr <= 0xFE9F {
            self.oam[addr as usize - 0xFE00]
        } else if addr <= 0xFEFF {
            0x00
        } else if addr <= 0xFF7F {
            self.io_registers[addr as usize - 0xFF00]
        } else {
            self.hram[addr as usize - 0xFF80]
        }
    }

    fn write_u8(&mut self, addr: u16, value: u8) {
        proof {
            use_type_invariant(&*self);
        }
        let value = if addr == DIV { 0 } else { value };
        if addr == BOOT_ROM_DISABLE {
            self.boot_rom_active = false;
        }
        if addr <= 0x7FFF {
            write_to_slot(&mut self.cartridge, addr, value);
        } else if addr <= 0x9FFF {
            self.vram[addr as usize - 0x8000] = value;
        } else if addr <= 0xBFFF {
            self.ram[addr as usize - 0xA000] = value;
        } else if addr <= 0xDFFF {
            self.work_ram[addr as usize - 0xC000] = value;
        } else if addr <= 0xFDFF {
            self.work_ram[addr as usize - 0xE000] = value;
        } else if addr <= 0xFE9F {
            self.oam[addr as usize - 0xFE00] = value;
        } else if addr <= 0xFEFF {
        } else if addr <= 0xFF7F {
            self.io_registers[addr as usize - 0xFF00] = value;
        } else {
            self.hram[addr as usize - 0xFF80] = value;
        }
    }

    fn read_u16(&self, addr: u16) -> (value: u16) {
        let lo = self.read_u8(addr) as u16;
        let hi = self.read_u8(addr.wrapping_add(1)) as u16;
        (hi << 8) | lo
    }

    fn clear(&mut self) {
        proof {
            use_type_invariant(&*self);
        }
        self.vram = vec![0xFFu8; 0x2000];
        self.ram = vec![0xFFu8; 0x2000];
        self.work_ram = vec![0xFFu8; 0x2000];
        self.oam = vec![0xFFu8; 0x00A0];
        self.io_registers = vec![0xFFu8; 0x0080];
        self.hram = vec![0xFFu8; 0x0080];
        assert(self.vram@ =~= filled(0x2000, 0xFF));
        assert(self.ram@ =~= filled(0x2000, 0xFF));
        assert(self.work_ram@ =~= filled(0x2000, 0xFF));
        assert(self.oam@ =~= filled(0xA0, 0xFF));
        assert(self.io_registers@ =~= filled(0x80, 0xFF));
        assert(self.hram@ =~= filled(0x80, 0xFF));
    }

    fn get_range(&self, range: Range<u16>) -> (bytes: Result<Vec<u8>, MemError>) {
        let mut bytes: Vec<u8> = Vec::new();
        let mut addr: u16 = range.start;
        while addr < range.end
            invariant
                range.start <= range.end ==> range.start <= addr <= range.end,
                range.start > range.end ==> addr == range.start,
                bytes@.len() == addr - range.start,
                forall|i: int|
                    0 <= i < bytes@.len() ==> bytes@[i] == Self::peek(
                        self@,
                        (range.start + i) as u16,
                    ),
            decreases range.end - addr,
        {
            bytes.push(self.read_u8(addr));
            addr = addr + 1;
        }
        Ok(bytes)
    }

    fn load_cartridge(&mut self, cartridge: Cartridge) {
        proof {
            use_type_invariant(&*self);
        }
        self.cartridge = Some(cartridge);
    }

    fn step_divider(&mut self) {
        proof {
            use_type_invariant(&*self);
        }
        let div = self.io_registers[DIV as usize - 0xFF00];
        self.io_registers[DIV as usize - 0xFF00] = div.wrapping_add(1);
    }
}

/// A flat bus of 65,536 bytes of plain memory. It stands in for the
/// console's bus where a program is to see the whole address space as
/// memory, as the recorded single-step tests do: it has no regions, no
/// echo and no side effects.
pub struct RawBus {
    ram: Vec<u8>,
}

impl View for RawBus {
    type V = Map<u16, u8>;

    closed spec fn view(&self) -> Map<u16, u8> {
        Map::new(|addr: u16| true, |addr: u16| self.ram@[addr as int])
    }
}

/// The state of a flat bus in which every address holds `value`.
pub open spec fn flat(value: u8) -> Map<u16, u8> {
    Map::new(|addr: u16| true, |addr: u16| value)
}

impl RawBus {
    #[verifier::type_invariant]
    spec fn inv(self) -> bool {
        self.ram@.len() == 0x10000
    }

    /// A bus that holds 0 at every address.
    pub fn new() -> (bus: RawBus)
        ensures
            bus@ == flat(0),
    {
        let bus = RawBus { ram: vec![0u8; 0x10000] };
        assert(bus@ =~= flat(0));
        bus
    }
}

impl Bus for RawBus {
    open spec fn peek(state: Map<u16, u8>, addr: u16) -> u8 {
        state[addr]
    }

    open spec fn poke(state: Map<u16, u8>, addr: u16, value: u8) -> Map<u16, u8> {
        state.insert(addr, value)
    }

    open spec fn cleared(state: Map<u16, u8>) -> Map<u16, u8> {
        flat(0)
    }

    open spec fn with_cartridge(state: Map<u16, u8>, cartridge: CartridgeView) -> Map<u16, u8> {
        state
    }

    open spec fn size(state: Map<u16, u8>) -> nat {
        0x10000
    }

    open spec fn divider_stepped(state: Map<u16, u8>) -> Map<u16, u8> {
        state.insert(DIV, state[DIV].wrapping_add(1))
    }

    fn read_u8(&self, addr: u16) -> (value: u8) {
        proof {
            use_type_invariant(self);
        }
        self.ram[addr as usize]
    }

    fn write_u8(&mut self, addr: u16, value: u8) {
        proof {
            use_type_invariant(&*self);
        }
        self.ram[addr as usize] = value;
        assert(self@ =~= old(self)@.insert(addr, value));
    }

    fn read_u16(&self, addr: u16) -> (value: u16) {
        let lo = self.read_u8(addr) as u16;
        let hi = self.read_u8(addr.wrapping_add(1)) as u16;
        (hi << 8) | lo
    }

    fn clear(&mut self) {
        self.ram = vec![0u8; 0x10000];
        assert(self@ =~= flat(0));
    }

    fn get_range(&self, range: Range<u16>) -> (bytes: Result<Vec<u8>, MemError>) {
        let mut bytes: Vec<u8> = Vec::new();
        let mut addr: u16 = range.start;
        while addr < range.end
            invariant
                range.start <= range.end ==> range.start <= addr <= range.end,
                range.start > range.end ==> addr == range.start,
                bytes@.len() == addr - range.start,
                forall|i: int|
                    0 <= i < bytes@.len() ==> bytes@[i] == Self::peek(
                        self@,
                        (range.start + i) as u16,
                    ),
            decreases range.end - addr,
        {
            bytes.push(self.read_u8(addr));
            addr = addr + 1;
        }
        Ok(bytes)
    }

    /// A flat bus has no cartridge slot: the cartridge is dropped.
    fn load_cartridge(&mut self, cartridge: Cartridge) {
    }

    fn step_divider(&mut self) {
        let div = self.read_u8(DIV);
        self.write_u8(DIV, div.wrapping_add(1));
    }
}

/// The most bytes of a ROM that `load_rom` copies.
pub const ROM_WINDOW: usize = 0x200;

/// The address at which `load_rom` puts a ROM.
pub const ROM_START: usize = 0x100;

/// The cell that an address stands for in a memory without regions: an
/// address of the echo, 0xE000 to 0xFDFF, stands for the cell of work
/// RAM 0x2000 below it, every other address for its own cell.
pub open spec fn mirrored(addr: u16) -> u16 {
    if 0xE000 <= addr <= 0xFDFF {
        (addr - 0x2000) as u16
    } else {
        addr
    }
}

/// The cell that an address stands for in a memory without regions.
pub fn mirror(addr: u16) -> (cell: u16)
    ensures
        cell == mirrored(addr),
{
    if 0xE000 <= addr && addr <= 0xFDFF {
        addr - 0x2000
    } else {
        addr
    }
}

/// A memory of a chosen size, without regions but for the echo: the
/// addresses 0xE000 to 0xFDFF show work RAM again. A cell past the end of
/// the memory reads 0 and loses what is written to it.
pub struct MemoryBus {
    size: usize,
    bytes: Vec<u8>,
}

/// What a sized memory holds: the size that it was made with, and its
/// bytes, of which there is one more than that.
pub struct MemoryView {
    pub size: usize,
    pub bytes: Seq<u8>,
}

impl View for MemoryBus {
    type V = MemoryView;

    closed spec fn view(&self) -> MemoryView {
        MemoryView { size: self.size, bytes: self.bytes@ }
    }
}

/// `bytes` with the start of `source` copied to `start`: as much of it as
/// `limit` allows and as fits.
pub open spec fn overlaid(bytes: Seq<u8>, start: int, source: Seq<u8>, limit: int) -> Seq<u8> {
    Seq::new(
        bytes.len(),
        |i: int|
            if start <= i < start + limit && i - start < source.len() {
                source[i - start]
            } else {
                bytes[i]
            },
    )
}

impl MemoryBus {
    /// A memory of `size + 1` bytes that holds the boot ROM at its start
    /// and 0 everywhere else. A boot ROM that is longer than the memory
    /// is cut off.
    pub fn new(size: usize, boot_rom: Vec<u8>) -> (bus: MemoryBus)
        requires
            size < usize::MAX,
        ensures
            bus@ == (MemoryView {
                size,
                bytes: overlaid(
                    Seq::new((size + 1) as nat, |i: int| 0u8),
                    0,
                    boot_rom@,
                    size + 1,
                ),
            }),
    {
        let mut memory: Vec<u8> = vec![0u8; size + 1];
        let mut i: usize = 0;
        while i < boot_rom.len() && i < memory.len()
            invariant
                memory@.len() == size + 1,
                i <= boot_rom@.len(),
                i <= memory@.len(),
                forall|k: int| 0 <= k < i ==> memory@[k] == boot_rom@[k],
                forall|k: int| i <= k < memory@.len() ==> memory@[k] == 0,
            decreases memory@.len() - i,
        {
            memory[i] = boot_rom[i];
            i = i + 1;
        }
        assert(memory@ =~= overlaid(
            Seq::new((size + 1) as nat, |i: int| 0u8),
            0,
            boot_rom@,
            size + 1,
        ));
        MemoryBus { size, bytes: memory }
    }

    /// Copies the first 0x200 bytes of a ROM to 0x100, as far as they
    /// fit.
    pub fn load_rom(&mut self, rom: Vec<u8>)
        ensures
            final(self)@ == (MemoryView {
                bytes: overlaid(old(self)@.bytes, ROM_START as int, rom@, ROM_WINDOW as int),
                ..old(self)@
            }),
    {
        let len = if rom.len() > ROM_WINDOW { ROM_WINDOW } else { rom.len() };
        let mut i: usize = 0;
        while i < len && i + ROM_START < self.bytes.len()
            invariant
                len <= rom@.len(),
                len <= ROM_WINDOW,
                len == rom@.len() || len == ROM_WINDOW,
                i <= len,
                self.size == old(self).size,
                self.bytes@.len() == old(self).bytes@.len(),
                forall|k: int|
                    0 <= k < self.bytes@.len() ==> self.bytes@[k] == (if ROM_START <= k < ROM_START
                        + i {
                        rom@[k - ROM_START]
                    } else {
                        old(self).bytes@[k]
                    }),
            decreases len - i,
        {
            self.bytes[i + ROM_START] = rom[i];
            i = i + 1;
        }
        assert(self.bytes@ =~= overlaid(
            old(self)@.bytes,
            ROM_START as int,
            rom@,
            ROM_WINDOW as int,
        ));
    }

    pub fn get_size(&self) -> (size: usize)
        ensures
            size == self@.size,
    {
        self.size
    }
}

impl Bus for MemoryBus {
    open spec fn peek(state: MemoryView, addr: u16) -> u8 {
        if mirrored(addr) < state.bytes.len() {
            state.bytes[mirrored(addr) as int]
        } else {
            0
        }
    }

    open spec fn poke(state: MemoryView, addr: u16, value: u8) -> MemoryView {
        if mirrored(addr) < state.bytes.len() {
            MemoryView { bytes: state.bytes.update(mirrored(addr) as int, value), ..state }
        } else {
            state
        }
    }

    open spec fn cleared(state: MemoryView) -> MemoryView {
        MemoryView { bytes: Seq::new(state.bytes.len(), |i: int| 0u8), ..state }
    }

    open spec fn with_cartridge(state: MemoryView, cartridge: CartridgeView) -> MemoryView {
        state
    }

    open spec fn size(state: MemoryView) -> nat {
        state.bytes.len()
    }

    open spec fn divider_stepped(state: MemoryView) -> MemoryView {
        Self::poke(state, DIV, Self::peek(state, DIV).wrapping_add(1))
    }

    fn read_u8(&self, addr: u16) -> (value: u8) {
        let cell = mirror(addr) as usize;
        if cell < self.bytes.len() {
            self.bytes[cell]
        } else {
            0
        }
    }

    fn write_u8(&mut self, addr: u16, value: u8) {
        let cell = mirror(addr) as usize;
        if cell < self.bytes.len() {
            self.bytes[cell] = value;
        }
    }

    fn read_u16(&self, addr: u16) -> (value: u16) {
        let lo = self.read_u8(addr) as u16;
        let hi = self.read_u8(addr.wrapping_add(1)) as u16;
        (hi << 8) | lo
    }

    fn clear(&mut self) {
        let mut i: usize = 0;
        while i < self.bytes.len()
            invariant
                i <= self.bytes@.len(),
                self.size == old(self).size,
                self.bytes@.len() == old(self).bytes@.len(),
                forall|k: int| 0 <= k < i ==> self.bytes@[k] == 0,
            decreases self.bytes@.len() - i,
        {
            self.bytes[i] = 0;
            i = i + 1;
        }
        assert(self.bytes@ =~= Seq::new(old(self)@.bytes.len(), |i: int| 0u8));
    }

    fn get_range(&self, range: Range<u16>) -> (bytes: Result<Vec<u8>, MemError>) {
        if range.end as usize > self.bytes.len() {
            return Err(MemError::OutOfRange);
        }
        let mut bytes: Vec<u8> = Vec::new();
        let mut addr: u16 = range.start;
        while addr < range.end
            invariant
                range.start <= range.end ==> range.start <= addr <= range.end,
                range.start > range.end ==> addr == range.start,
                bytes@.len() == addr - range.start,
                forall|i: int|
                    0 <= i < bytes@.len() ==> bytes@[i] == Self::peek(
                        self@,
                        (range.start + i) as u16,
                    ),
            decreases range.end - addr,
        {
            bytes.push(self.read_u8(addr));
            addr = addr + 1;
        }
        Ok(bytes)
    }

    /// A sized memory has no cartridge slot: the cartridge is dropped.
    fn load_cartridge(&mut self, cartridge: Cartridge) {
    }

    fn step_divider(&mut self) {
        let div = self.read_u8(DIV);
        self.write_u8(DIV, div.wrapping_add(1));
    }
}

} // verus!
