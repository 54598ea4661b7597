//! What holds of the console's bus and of the flat bus.

use vstd::prelude::*;
use crate::cartridge::CartridgeView;
use crate::memory::{
    plain_at, Bus, DMGBus, DmgState, MemoryBus, MemoryView, RawBus, BOOT_ROM_DISABLE, DIV,
};

verus! {

/// Whether an address of the console's bus is plain memory: video RAM,
/// external RAM, the part of work RAM that has no echo, object memory,
/// the I/O registers but for the divider and the boot ROM switch, and
/// high RAM with the interrupt-enable byte.
pub open spec fn is_plain_address(addr: u16) -> bool {
    ||| 0x8000 <= addr <= 0xBFFF
    ||| 0xDE00 <= addr <= 0xDFFF
    ||| 0xFE00 <= addr <= 0xFE9F
    ||| 0xFF00 <= addr <= 0xFF7F && addr != DIV && addr != BOOT_ROM_DISABLE
    ||| 0xFF80 <= addr
}

/// Whether an address of the console's bus keeps what is written to it,
/// so that a read of it returns the byte. All do but the ROM, the gap
/// from 0xFEA0 to 0xFEFF and the divider.
pub open spec fn keeps_writes(addr: u16) -> bool {
    ||| 0x8000 <= addr <= 0xFE9F
    ||| 0xFF00 <= addr && addr != DIV
}

/// Two cells of the console's bus that follow each other and keep what
/// is written to them read back what is written to them, the lower one
/// written last: neither write touches the other cell.
pub proof fn lemma_adjacent_cells_read_back(state: DmgState, upper: u16)
    requires
        state.wf(),
        keeps_writes(upper),
        keeps_writes(upper.wrapping_sub(1)),
    ensures
        forall|a: u8, b: u8|
            {
                let after = #[trigger] DMGBus::poke(
                    DMGBus::poke(state, upper, a),
                    upper.wrapping_sub(1),
                    b,
                );
                DMGBus::peek(after, upper) == a && DMGBus::peek(after, upper.wrapping_sub(1)) == b
            },
{
}

/// A write leaves every region of the console's bus at its length.
pub proof fn lemma_write_keeps_wf(state: DmgState, addr: u16, value: u8)
    requires
        state.wf(),
    ensures
        state.write(addr, value).wf(),
{
}

/// A plain address of the console's bus is plain memory.
pub proof fn lemma_plain_address_is_plain(state: DmgState, addr: u16)
    requires
        state.wf(),
        is_plain_address(addr),
    ensures
        plain_at::<DMGBus>(state, addr),
{
}

/// Every address of a flat bus is plain memory.
pub proof fn lemma_flat_bus_is_plain(state: Map<u16, u8>, addr: u16)
    ensures
        plain_at::<RawBus>(state, addr),
{
}

/// Every address answers from one region. A read of the gap gives 0 and
/// a write to it is lost.
pub proof fn lemma_gap_is_dead(state: DmgState, addr: u16, value: u8)
    requires
        0xFEA0 <= addr <= 0xFEFF,
    ensures
        state.read(addr) == 0,
        state.write(addr, value) == state,
{
}

/// The echo: from 0xE000 to 0xFDFF the bus shows work RAM again, for
/// reads and for writes.
pub proof fn lemma_echo_mirrors_work_ram(state: DmgState, addr: u16, value: u8)
    requires
        state.wf(),
        0xE000 <= addr <= 0xFDFF,
    ensures
        state.read(addr) == state.read((addr - 0x2000) as u16),
        state.write(addr, value) == state.write((addr - 0x2000) as u16, value),
        state.write(addr, value).read((addr - 0x2000) as u16) == value,
{
}

/// The echo on a sized memory: from 0xE000 to 0xFDFF it shows work RAM
/// again, for reads and for writes, whatever its size.
pub proof fn lemma_sized_echo_mirrors_work_ram(state: MemoryView, addr: u16, value: u8)
    requires
        0xE000 <= addr <= 0xFDFF,
    ensures
        MemoryBus::peek(state, addr) == MemoryBus::peek(state, (addr - 0x2000) as u16),
        MemoryBus::poke(state, addr, value) == MemoryBus::poke(state, (addr - 0x2000) as u16, value),
        (addr - 0x2000) < state.bytes.len() ==> MemoryBus::peek(
            MemoryBus::poke(state, (addr - 0x2000) as u16, value),
            addr,
        ) == value,
{
}

/// The timer moves the divider on by one and changes nothing else that
/// a read returns; no write of the timer resets it.
pub proof fn lemma_divider_counts(state: DmgState, other: u16)
    requires
        state.wf(),
    ensures
        DMGBus::divider_stepped(state).wf(),
        DMGBus::divider_stepped(state).read(DIV) == state.read(DIV).wrapping_add(1),
        other != DIV ==> DMGBus::divider_stepped(state).read(other) == state.read(other),
{
}

/// A write to the divider resets it, whatever is written.
pub proof fn lemma_divider_resets(state: DmgState, value: u8)
    requires
        state.wf(),
    ensures
        state.write(DIV, value).read(DIV) == 0,
        state.write(DIV, value) == state.write(DIV, 0),
{
}

/// Once unmapped, the boot ROM stays unmapped whatever is written, and
/// the addresses below 0x0100 show the cartridge.
pub proof fn lemma_boot_rom_stays_unmapped(state: DmgState, addr: u16, value: u8, low: u16)
    requires
        !state.boot_rom_active,
        low < 0x100,
    ensures
        !state.write(addr, value).boot_rom_active,
        state.read(low) == (match state.cartridge {
            Some(cartridge) => cartridge.fixed_rom_bank_byte(low),
            None => 0xFFu8,
        }),
{
}

/// A write to 0xFF50 unmaps the boot ROM.
pub proof fn lemma_boot_rom_unmaps(state: DmgState, value: u8)
    ensures
        !state.write(BOOT_ROM_DISABLE, value).boot_rom_active,
{
}

/// While the boot ROM is mapped, it answers the reads of its addresses.
pub proof fn lemma_boot_rom_overlays(state: DmgState, addr: u16)
    requires
        state.boot_rom_active,
        addr < 0x100,
        addr < state.boot_rom.len(),
    ensures
        state.read(addr) == state.boot_rom[addr as int],
{
}

/// A bank selection changes which bank the window shows and nothing
/// else: no bank loses what it holds, and selecting the earlier bank
/// again shows what it showed.
pub proof fn lemma_bank_switch_keeps_banks(
    cartridge: CartridgeView,
    away: u8,
    back: u8,
    select: u16,
    addr: u16,
)
    requires
        0x2000 <= select <= 0x3FFF,
        crate::cartridge::selected_bank(back) == cartridge.current_bank,
    ensures
        cartridge.write(select, away).switchable_banks == cartridge.switchable_banks,
        cartridge.write(select, away).fixed_rom_bank == cartridge.fixed_rom_bank,
        cartridge.write(select, away).write(select, back) == cartridge,
        cartridge.write(select, away).write(select, back).read(addr) == cartridge.read(addr),
{
}

/// A request for bank 0 selects bank 1, and only the low five bits of a
/// request count.
pub proof fn lemma_bank_selection(bank_number: u8)
    ensures
        crate::cartridge::selected_bank(0) == crate::cartridge::selected_bank(1),
        crate::cartridge::selected_bank(bank_number) == crate::cartridge::selected_bank(
            bank_number & 0x1f,
        ),
        crate::cartridge::selected_bank(bank_number) < 31,
{
    assert((bank_number & 0x1f) & 0x1f == bank_number & 0x1f) by (bit_vector);
    assert(bank_number & 0x1f <= 31) by (bit_vector);
    assert(0u8 & 0x1f == 0) by (bit_vector);
    assert(1u8 & 0x1f == 1) by (bit_vector);
}

} // verus!
