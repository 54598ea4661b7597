//! The registers of the display controller and where the bus maps them.

use vstd::prelude::*;

verus! {

/// A register of the display controller.
#[derive(Clone, Copy, Debug, PartialEq, Eq, Structural)]
pub enum LCDRegister {
    /// Display control. Bit 7 switches the display on, bit 4 selects how
    /// tile numbers index the tile data, bit 3 selects the tile map.
    Lcdc,
    Stat,
    /// Vertical scroll.
    Scy,
    /// Horizontal scroll.
    Scx,
    /// The scanline that is being drawn.
    Ly,
    Lyc,
    Dma,
    Bgp,
    Obp0,
    Obp1,
}

/// The address of a display register.
pub open spec fn lcd_address(register: LCDRegister) -> u16 {
    match register {
        LCDRegister::Lcdc => 0xFF40,
        LCDRegister::Stat => 0xFF41,
        LCDRegister::Scy => 0xFF42,
        LCDRegister::Scx => 0xFF43,
        LCDRegister::Ly => 0xFF44,
        LCDRegister::Lyc => 0xFF45,
        LCDRegister::Dma => 0xFF46,
        LCDRegister::Bgp => 0xFF47,
        LCDRegister::Obp0 => 0xFF48,
        LCDRegister::Obp1 => 0xFF49,
    }
}

impl From<LCDRegister> for u16 {
    fn from(val: LCDRegister) -> (addr: u16) {
        match val {
            LCDRegister::Lcdc => 0xFF40,
            LCDRegister::Stat => 0xFF41,
            LCDRegister::Scy => 0xFF42,
            LCDRegister::Scx => 0xFF43,
            LCDRegister::Ly => 0xFF44,
            LCDRegister::Lyc => 0xFF45,
            LCDRegister::Dma => 0xFF46,
            LCDRegister::Bgp => 0xFF47,
            LCDRegister::Obp0 => 0xFF48,
            LCDRegister::Obp1 => 0xFF49,
        }
    }
}

impl vstd::std_specs::convert::FromSpecImpl<LCDRegister> for u16 {
    open spec fn obeys_from_spec() -> bool {
        true
    }

    open spec fn from_spec(val: LCDRegister) -> u16 {
        lcd_address(val)
    }
}

} // verus!
