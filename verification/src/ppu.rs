//! The pixel pipeline: a state machine that walks through the modes of
//! each scanline, fetches background tiles and feeds their pixels through
//! a queue into the frame.

use vstd::prelude::*;
use std::collections::VecDeque;
use crate::bit_ops::{bit_of, BitOps};
use crate::frame_buffer::FrameBuffer;
use crate::lcd::{lcd_address, LCDRegister};
use crate::memory::Bus;

pub mod laws;

verus! {

pub const SCREEN_WIDTH: usize = 160;

pub const SCREEN_HEIGHT: usize = 144;

/// The clock cycles of one scanline.
pub const CYCLES_PER_SCANLINE: usize = 456;

/// The clock cycles that the search for objects takes at the start of a
/// scanline.
pub const OAM_SCAN_CYCLES: usize = 80;

/// The scanline at which the vertical blank begins.
pub const VBLANK_START: u8 = 144;

/// The number of scanlines of a frame, the ten of the vertical blank
/// included.
pub const SCANLINES_PER_FRAME: u8 = 154;

/// The most pixels that the queue holds.
pub const FIFO_CAPACITY: usize = 16;

/// The largest count of cycles that is kept for a scanline.
pub const CYCLE_COUNT_LIMIT: usize = 0xFFFF_FFFF;

/// The four colours that the colour indices 0 to 3 stand for.
pub type Palette = (u32, u32, u32, u32);

/// The modes that the pipeline goes through on a scanline.
#[derive(Clone, Copy, Debug, PartialEq, Eq, Structural)]
pub enum PpuMode {
    HBlank,
    VBlank,
    OAMScan,
    DrawingPixels,
}

/// The steps of the tile fetcher.
#[derive(Clone, Copy, Debug, PartialEq, Eq, Structural)]
pub enum FetcherMode {
    GetTile,
    TileDataLow,
    TileDataHigh,
    Sleep,
    Push,
}

/// A queue of pixels: first in, first out.
pub struct Fifo {
    pixels: VecDeque<u32>,
    max_size: usize,
}

impl View for Fifo {
    type V = Seq<u32>;

    /// The pixels in the order in which they leave.
    closed spec fn view(&self) -> Seq<u32> {
        self.pixels@
    }
}

impl Fifo {
    /// The most pixels that the queue holds.
    pub closed spec fn capacity(&self) -> usize {
        self.max_size
    }

    pub fn new() -> (fifo: Fifo)
        ensures
            fifo@ == Seq::<u32>::empty(),
            fifo.capacity() == FIFO_CAPACITY,
    {
        Fifo { pixels: VecDeque::new(), max_size: 16 }
    }

    /// Appends a pixel to a queue that is not full.
    pub fn push(&mut self, pixel: u32)
        requires
            old(self)@.len() < old(self).capacity(),
        ensures
            final(self)@ == old(self)@.push(pixel),
            final(self).capacity() == old(self).capacity(),
    {
        self.pixels.push_back(pixel);
    }

    /// Takes the oldest pixel from a queue that is not empty.
    pub fn pop(&mut self) -> (pixel: u32)
        requires
            old(self)@.len() > 0,
        ensures
            pixel == old(self)@[0],
            final(self)@ == old(self)@.subrange(1, old(self)@.len() as int),
            final(self).capacity() == old(self).capacity(),
    {
        self.pixels.pop_front().unwrap()
    }

    pub fn len(&self) -> (len: usize)
        ensures
            len == self@.len(),
    {
        self.pixels.len()
    }

    pub fn clear(&mut self)
        ensures
            final(self)@ == Seq::<u32>::empty(),
            final(self).capacity() == old(self).capacity(),
    {
        self.pixels.clear();
    }
}

/// A tile number read as a signed byte.
pub open spec fn signed(tile_number: u8) -> int {
    if tile_number < 128 {
        tile_number as int
    } else {
        tile_number - 256
    }
}

/// The address in the tile map of the tile that the fetcher is at. The
/// map starts at 0x9C00 where LCDC bit 3 is set and at 0x9800 where it is
/// not. It has 32 tiles to a row; the row is that of the scrolled
/// scanline, the column is `fetcher_x`.
pub open spec fn tile_number_address(lcdc: u8, ly: u8, scy: u8, fetcher_x: u8) -> u16 {
    ((if lcdc & 0x08 != 0 { 0x9C00int } else { 0x9800int }) + 32 * (((ly + scy) % 256) / 8)
        + fetcher_x % 32) as u16
}

/// The address of the low byte of the tile row that the fetcher is at.
/// Where LCDC bit 4 is set, tile numbers count up from 0x8000; where it
/// is not, they are signed and count from 0x9000. A tile has 16 bytes,
/// two for each of its rows; the row is that of the scrolled scanline.
pub open spec fn tile_data_address(lcdc: u8, tile_number: u8, ly: u8, scy: u8) -> u16 {
    ((if lcdc & 0x10 != 0 { 0x8000 + 16 * tile_number } else { 0x9000 + 16 * signed(tile_number) })
        + 2 * ((ly + scy) % 8)) as u16
}

/// The colour that a colour index stands for.
pub open spec fn palette_color(palette: Palette, index: u8) -> u32 {
    match index {
        0 => palette.0,
        1 => palette.1,
        2 => palette.2,
        _ => palette.3,
    }
}

/// The colour index of the pixel in bit `bit` of a tile row: the bit of
/// the high byte before the bit of the low byte.
pub open spec fn color_index(lo_byte: u8, hi_byte: u8, bit: u8) -> u8 {
    (bit_of(hi_byte, bit) << 1) | bit_of(lo_byte, bit)
}

/// The eight colours of a tile row, from the leftmost pixel (bit 7) to
/// the rightmost (bit 0).
pub open spec fn row_colors(lo_byte: u8, hi_byte: u8, palette: Palette) -> Seq<u32> {
    Seq::new(8, |i: int| palette_color(palette, color_index(lo_byte, hi_byte, (7 - i) as u8)))
}

/// The number of fetcher steps since the last push.
pub open spec fn fetcher_stage(mode: FetcherMode) -> int {
    match mode {
        FetcherMode::GetTile => 0,
        FetcherMode::TileDataLow => 1,
        FetcherMode::TileDataHigh => 2,
        FetcherMode::Push => 3,
        FetcherMode::Sleep => 0,
    }
}

/// The state of the pipeline.
pub struct PpuState {
    /// The pixels of the frame, row by row.
    pub frame: Seq<u32>,
    pub mode: PpuMode,
    pub current_scanline_cycles: usize,
    pub fetcher_mode: FetcherMode,
    /// The column of the tile map that the fetcher is at.
    pub fetcher_x: u8,
    /// The column of the frame that the next pixel goes to.
    pub scanline_x: u8,
    pub tile_number: u8,
    pub tile_addr: u16,
    pub lo_byte: u8,
    pub hi_byte: u8,
    /// The queue of pixels, in the order in which they leave.
    pub background_fifo: Seq<u32>,
    pub palette: Palette,
    /// The pixels that are still to be dropped for the fine scroll.
    pub pixels_to_discard: u8,
}

impl PpuState {
    /// Whether the fetcher steps in the next cycle: it steps in every
    /// second cycle of a scanline, in those that make the count of the
    /// scanline's cycles even.
    pub open spec fn fetcher_steps(self) -> bool {
        self.current_scanline_cycles % 2 == 1
    }

    /// The count of cycles after one more cycle. Below the limit it goes
    /// up by one. From the limit on it goes down by one instead, so that
    /// it stays above every threshold of a scanline and still changes
    /// between even and odd with every cycle.
    pub open spec fn next_cycle_count(self) -> usize {
        if self.current_scanline_cycles < CYCLE_COUNT_LIMIT {
            (self.current_scanline_cycles + 1) as usize
        } else {
            (self.current_scanline_cycles - 1) as usize
        }
    }

    /// The invariant of the pipeline: the frame has its size; no pixel of
    /// a scanline is drawn before its pixels begin, and fewer than 160
    /// while they are drawn; and the queue has room for the next push of
    /// the fetcher, which comes the sooner the further the fetcher is.
    pub open spec fn wf(self) -> bool {
        &&& self.frame.len() == SCREEN_WIDTH * SCREEN_HEIGHT
        &&& self.background_fifo.len() <= FIFO_CAPACITY
        &&& (self.mode is OAMScan || self.mode is VBlank) ==> self.scanline_x == 0
        &&& self.mode is DrawingPixels ==> {
            &&& self.scanline_x < SCREEN_WIDTH
            &&& self.background_fifo.len() + 2 * fetcher_stage(self.fetcher_mode) + (if self.fetcher_steps() {
                1int
            } else {
                0int
            }) <= 15
        }
    }

    /// The state at the start of the pixels of a scanline: the fetcher is
    /// at the tile that the horizontal scroll points to, the pixels that
    /// the scroll hides are still to be dropped, the queue is empty.
    pub open spec fn restarted<B: Bus>(self, mem: B::V) -> PpuState {
        let scx = B::peek(mem, lcd_address(LCDRegister::Scx));
        PpuState {
            fetcher_x: scx >> 3,
            pixels_to_discard: scx & 7,
            background_fifo: Seq::empty(),
            fetcher_mode: FetcherMode::GetTile,
            ..self
        }
    }

    /// One step of the fetcher: it reads the tile number, then the low
    /// byte and the high byte of the tile's row, then pushes the eight
    /// pixels of the row and moves to the next tile of the map, going
    /// round after 32.
    #[verifier::opaque]
    pub open spec fn fetched<B: Bus>(self, mem: B::V) -> PpuState {
        let lcdc = B::peek(mem, lcd_address(LCDRegister::Lcdc));
        let ly = B::peek(mem, lcd_address(LCDRegister::Ly));
        let scy = B::peek(mem, lcd_address(LCDRegister::Scy));
        match self.fetcher_mode {
            FetcherMode::GetTile => PpuState {
                tile_number: B::peek(mem, tile_number_address(lcdc, ly, scy, self.fetcher_x)),
                fetcher_mode: FetcherMode::TileDataLow,
                ..self
            },
            FetcherMode::TileDataLow => {
                let tile_addr = tile_data_address(lcdc, self.tile_number, ly, scy);
                PpuState {
                    tile_addr,
                    lo_byte: B::peek(mem, tile_addr),
                    fetcher_mode: FetcherMode::TileDataHigh,
                    ..self
                }
            },
            FetcherMode::TileDataHigh => PpuState {
                hi_byte: B::peek(mem, self.tile_addr.wrapping_add(1)),
                fetcher_mode: FetcherMode::Push,
                ..self
            },
            FetcherMode::Push => PpuState {
                background_fifo: self.background_fifo + row_colors(
                    self.lo_byte,
                    self.hi_byte,
                    self.palette,
                ),
                fetcher_x: if self.fetcher_x >= 31 { 0 } else { (self.fetcher_x + 1) as u8 },
                fetcher_mode: FetcherMode::GetTile,
                ..self
            },
            FetcherMode::Sleep => self,
        }
    }

    /// The frame with `color` at column `x` of row `y`; unchanged where
    /// the row lies outside the frame.
    pub open spec fn frame_with_pixel(self, x: u8, y: u8, color: u32) -> Seq<u32> {
        if x < SCREEN_WIDTH && y < SCREEN_HEIGHT {
            self.frame.update(y * SCREEN_WIDTH + x, color)
        } else {
            self.frame
        }
    }

    /// The output of one cycle: where the queue holds a pixel, the pixel
    /// leaves it; it is dropped where pixels are still to be dropped, and
    /// else goes to the frame at the column `scanline_x` of the row LY.
    #[verifier::opaque]
    pub open spec fn output<B: Bus>(self, mem: B::V) -> PpuState {
        if self.background_fifo.len() > 0 {
            let color = self.background_fifo[0];
            let rest = self.background_fifo.subrange(1, self.background_fifo.len() as int);
            if self.pixels_to_discard > 0 {
                PpuState {
                    background_fifo: rest,
                    pixels_to_discard: (self.pixels_to_discard - 1) as u8,
                    ..self
                }
            } else {
                PpuState {
                    background_fifo: rest,
                    frame: self.frame_with_pixel(
                        self.scanline_x,
                        B::peek(mem, lcd_address(LCDRegister::Ly)),
                        color,
                    ),
                    scanline_x: (self.scanline_x + 1) as u8,
                    ..self
                }
            }
        } else {
            self
        }
    }

    /// One clock cycle.
    ///
    /// The cycle counts towards the scanline. In the object search
    /// nothing happens until 80 cycles are reached; then the pixels
    /// start. While pixels are drawn, the fetcher steps in every second
    /// cycle and a pixel leaves the queue; after the 160th pixel the
    /// horizontal blank
    /// begins. The horizontal blank ends when 456 cycles are reached: the
    /// next scanline begins, in the vertical blank from scanline 144 on.
    /// In the vertical blank every 456 cycles begin a new scanline, and
    /// scanline 154 is scanline 0 of the next frame.
    #[verifier::opaque]
    pub open spec fn ticked<B: Bus>(self, mem: B::V) -> (PpuState, B::V) {
        let counted = PpuState { current_scanline_cycles: self.next_cycle_count(), ..self };
        match self.mode {
            PpuMode::OAMScan => if counted.current_scanline_cycles >= OAM_SCAN_CYCLES {
                (PpuState { mode: PpuMode::DrawingPixels, ..counted.restarted::<B>(mem) }, mem)
            } else {
                (counted, mem)
            },
            PpuMode::DrawingPixels => {
                let drawn = (if self.fetcher_steps() {
                    counted.fetched::<B>(mem)
                } else {
                    counted
                }).output::<B>(mem);
                if drawn.scanline_x >= SCREEN_WIDTH {
                    (PpuState { mode: PpuMode::HBlank, ..drawn }, mem)
                } else {
                    (drawn, mem)
                }
            },
            PpuMode::HBlank => if counted.current_scanline_cycles >= CYCLES_PER_SCANLINE {
                let ly = B::peek(mem, lcd_address(LCDRegister::Ly)).wrapping_add(1);
                (
                    PpuState {
                        scanline_x: 0,
                        current_scanline_cycles: 0,
                        mode: if ly >= VBLANK_START { PpuMode::VBlank } else { PpuMode::OAMScan },
                        ..counted.restarted::<B>(mem)
                    },
                    B::poke(mem, lcd_address(LCDRegister::Ly), ly),
                )
            } else {
                (counted, mem)
            },
            PpuMode::VBlank => if counted.current_scanline_cycles >= CYCLES_PER_SCANLINE {
                let ly = B::peek(mem, lcd_address(LCDRegister::Ly)).wrapping_add(1);
                if ly >= SCANLINES_PER_FRAME {
                    (
                        PpuState {
                            current_scanline_cycles: 0,
                            mode: PpuMode::OAMScan,
                            ..counted
                        },
                        B::poke(mem, lcd_address(LCDRegister::Ly), 0),
                    )
                } else {
                    (
                        PpuState { current_scanline_cycles: 0, ..counted },
                        B::poke(mem, lcd_address(LCDRegister::Ly), ly),
                    )
                }
            } else {
                (counted, mem)
            },
        }
    }

    /// The state and the memory after `cycles` cycles.
    pub open spec fn ran<B: Bus>(self, mem: B::V, cycles: nat) -> (PpuState, B::V)
        decreases cycles,
    {
        if cycles == 0 {
            (self, mem)
        } else {
            let (state, mem) = self.ran::<B>(mem, (cycles - 1) as nat);
            state.ticked::<B>(mem)
        }
    }

    /// The state and the memory after an update by `cycles` cycles:
    /// nothing happens while the display is switched off (LCDC bit 7).
    pub open spec fn updated<B: Bus>(self, mem: B::V, cycles: nat) -> (PpuState, B::V) {
        if bit_of(B::peek(mem, lcd_address(LCDRegister::Lcdc)), 7) == 0 {
            (self, mem)
        } else {
            self.ran::<B>(mem, cycles)
        }
    }
}

/// The two ways to write the address of a tile number agree: with bit
/// operations, as the fetcher computes it, and with sums.
proof fn lemma_tile_number_address(lcdc: u8, ly: u16, scy: u16, fetcher_x: u8)
    by (bit_vector)
    requires
        ly < 256,
        scy < 256,
    ensures
        ({
            let base = ((lcdc >> 3) & 1) as u16;
            (0x9800u16 | (base << 10) | (((((ly + scy) as u16) & 0xFF) >> 3) << 5) | (fetcher_x as u16
                & 0x1F)) as int
        }) == (if lcdc & 0x08 != 0 { 0x9C00int } else { 0x9800int }) + 32 * (((ly + scy) % 256) / 8)
            + fetcher_x % 32,
{
}

/// The two ways to write the address of a tile row agree.
proof fn lemma_tile_data_address(lcdc: u16, tile_number: u8, ly: u16, scy: u16)
    by (bit_vector)
    requires
        ly < 256,
        scy < 256,
    ensures
        ({
            let bit_12: u16 = if !(((lcdc & 0x10) > 0) || (tile_number & 0x80) > 0) { 1 } else { 0 };
            (0x8000u16 | (bit_12 << 12) | ((tile_number as u16) << 4) | ((((ly + scy) as u16) % 8)
                << 1)) as int
        }) == (if lcdc & 0x10 != 0 {
            0x8000 + 16 * tile_number
        } else if tile_number < 128 {
            0x9000 + 16 * tile_number
        } else {
            0x8000 + 16 * tile_number
        }) + 2 * ((ly + scy) % 8),
        (lcdc & 0x10 != 0) == ((lcdc as u8) & 0x10 != 0) || lcdc >= 256,
{
}

/// The pixel pipeline.
pub struct Ppu {
    frame: FrameBuffer,
    mode: PpuMode,
    current_scanline_cycles: usize,
    fetcher_mode: FetcherMode,
    fetcher_x: u8,
    scanline_x: u8,
    tile_number: u8,
    tile_addr: u16,
    lo_byte: u8,
    hi_byte: u8,
    background_fifo: Fifo,
    palette: Palette,
    pixels_to_discard: u8,
}

impl View for Ppu {
    type V = PpuState;

    closed spec fn view(&self) -> PpuState {
        PpuState {
            frame: self.frame@.pixels,
            mode: self.mode,
            current_scanline_cycles: self.current_scanline_cycles,
            fetcher_mode: self.fetcher_mode,
            fetcher_x: self.fetcher_x,
            scanline_x: self.scanline_x,
            tile_number: self.tile_number,
            tile_addr: self.tile_addr,
            lo_byte: self.lo_byte,
            hi_byte: self.hi_byte,
            background_fifo: self.background_fifo@,
            palette: self.palette,
            pixels_to_discard: self.pixels_to_discard,
        }
    }
}

/// The state of a pipeline that has not run yet: an all-zero frame, the
/// object search of a scanline ahead.
pub open spec fn initial_state(palette: Palette) -> PpuState {
    PpuState {
        frame: Seq::new((SCREEN_WIDTH * SCREEN_HEIGHT) as nat, |i: int| 0u32),
        mode: PpuMode::OAMScan,
        current_scanline_cycles: 0,
        fetcher_mode: FetcherMode::GetTile,
        fetcher_x: 0,
        scanline_x: 0,
        tile_number: 0,
        tile_addr: 0,
        lo_byte: 0,
        hi_byte: 0,
        background_fifo: Seq::empty(),
        palette,
        pixels_to_discard: 0,
    }
}

impl Ppu {
    /// The frame is 160 by 144 and the queue takes 16 pixels.
    pub closed spec fn sized(&self) -> bool {
        &&& self.frame@.width == SCREEN_WIDTH
        &&& self.frame@.height == SCREEN_HEIGHT
        &&& self.background_fifo.capacity() == FIFO_CAPACITY
    }

    /// The pipeline has its sizes and its state is well-formed.
    pub open spec fn wf(&self) -> bool {
        self.sized() && self@.wf()
    }

    /// A pipeline at the start of a frame. Scanline 0 is written to LY.
    pub fn new<B: Bus>(bus: &mut B, palette: Palette) -> (ppu: Ppu)
        ensures
            ppu.wf(),
            ppu@ == initial_state(palette),
            final(bus)@ == B::poke(old(bus)@, lcd_address(LCDRegister::Ly), 0),
    {
        bus.write_u8(LCDRegister::Ly.into(), 0);
        Ppu {
            frame: FrameBuffer::new(SCREEN_WIDTH, SCREEN_HEIGHT),
            mode: PpuMode::OAMScan,
            current_scanline_cycles: 0,
            fetcher_mode: FetcherMode::GetTile,
            fetcher_x: 0,
            scanline_x: 0,
            tile_number: 0,
            tile_addr: 0,
            lo_byte: 0,
            hi_byte: 0,
            background_fifo: Fifo::new(),
            palette,
            pixels_to_discard: 0,
        }
    }

    /// The mode that the pipeline is in.
    pub fn mode(&self) -> (mode: PpuMode)
        ensures
            mode == self@.mode,
    {
        self.mode
    }

    pub fn set_palette(&mut self, palette: Palette)
        ensures
            final(self)@ == (PpuState { palette, ..old(self)@ }),
            old(self).sized() ==> final(self).sized(),
    {
        self.palette = palette;
    }

    /// The frame as it stands, which in the middle of a frame is partly
    /// that of the frame before.
    pub fn get_frame(&self) -> (frame: &FrameBuffer)
        ensures
            frame@.pixels == self@.frame,
            self.sized() ==> frame@.width == SCREEN_WIDTH && frame@.height == SCREEN_HEIGHT,
    {
        &self.frame
    }

    /// Puts a colour at column `x` of row `y` of the frame. A place
    /// outside the frame is ignored.
    pub fn set_pixel(&mut self, x: usize, y: usize, color: u32)
        requires
            old(self).sized(),
        ensures
            final(self).sized(),
            final(self)@ == (PpuState {
                frame: if x < SCREEN_WIDTH && y < SCREEN_HEIGHT {
                    old(self)@.frame.update(y * SCREEN_WIDTH + x, color)
                } else {
                    old(self)@.frame
                },
                ..old(self)@
            }),
    {
        if x < SCREEN_WIDTH && y < SCREEN_HEIGHT {
            let index = (y * SCREEN_WIDTH) + x;
            self.frame.write(index, color);
        }
    }

    /// Reads the number of the tile that the fetcher is at.
    pub fn get_tile_number<B: Bus>(&self, bus: &B) -> (tile_number: u8)
        ensures
            tile_number == B::peek(
                bus@,
                tile_number_address(
                    B::peek(bus@, lcd_address(LCDRegister::Lcdc)),
                    B::peek(bus@, lcd_address(LCDRegister::Ly)),
                    B::peek(bus@, lcd_address(LCDRegister::Scy)),
                    self@.fetcher_x,
                ),
            ),
    {
        let lcdc = bus.read_u8(LCDRegister::Lcdc.into());
        let ly = bus.read_u8(LCDRegister::Ly.into()) as u16;
        let scy = bus.read_u8(LCDRegister::Scy.into()) as u16;
        proof {
            lemma_tile_number_address(lcdc, ly, scy, self.fetcher_x);
        }
        let tile_map_base = ((lcdc >> 3) & 1) as u16;
        let tile_num_addr = 0x9800 | (tile_map_base << 10) | ((((ly + scy) & 0xFF) >> 3) << 5) | (
        self.fetcher_x as u16 & 0x1F);
        bus.read_u8(tile_num_addr)
    }

    /// Works out the address of the tile row that the fetcher is at and
    /// reads its low byte.
    pub fn get_tile_data_low<B: Bus>(&mut self, bus: &B) -> (lo_byte: u8)
        ensures
            final(self)@ == (PpuState {
                tile_addr: tile_data_address(
                    B::peek(bus@, lcd_address(LCDRegister::Lcdc)),
                    old(self)@.tile_number,
                    B::peek(bus@, lcd_address(LCDRegister::Ly)),
                    B::peek(bus@, lcd_address(LCDRegister::Scy)),
                ),
                ..old(self)@
            }),
            lo_byte == B::peek(bus@, final(self)@.tile_addr),
            old(self).sized() ==> final(self).sized(),
    {
        let lcdc = bus.read_u8(LCDRegister::Lcdc.into()) as u16;
        let ly = bus.read_u8(LCDRegister::Ly.into()) as u16;
        let scy = bus.read_u8(LCDRegister::Scy.into()) as u16;
        proof {
            lemma_tile_data_address(lcdc, self.tile_number, ly, scy);
        }
        let bit_12: u16 = if !(((lcdc & 0x10) > 0) || (self.tile_number & 0x80) > 0) { 1 } else { 0 };
        self.tile_addr = 0x8000 | (bit_12 << 12) | ((self.tile_number as u16) << 4) | (((ly + scy)
            % 8) << 1);
        bus.read_u8(self.tile_addr)
    }

    /// Reads the high byte of the tile row that the fetcher is at.
    pub fn get_tile_data_high<B: Bus>(&self, bus: &B) -> (hi_byte: u8)
        ensures
            hi_byte == B::peek(bus@, self@.tile_addr.wrapping_add(1)),
    {
        bus.read_u8(self.tile_addr.wrapping_add(1))
    }

    /// Pushes the eight pixels of the fetched tile row and moves the
    /// fetcher to the next tile.
    #[verifier::rlimit(60)]
    pub fn push_to_fifo(&mut self)
        requires
            old(self).sized(),
            old(self)@.background_fifo.len() <= 8,
        ensures
            final(self)@ == (PpuState {
                background_fifo: old(self)@.background_fifo + row_colors(
                    old(self)@.lo_byte,
                    old(self)@.hi_byte,
                    old(self)@.palette,
                ),
                fetcher_x: if old(self)@.fetcher_x >= 31 {
                    0
                } else {
                    (old(self)@.fetcher_x + 1) as u8
                },
                ..old(self)@
            }),
            final(self).sized(),
    {
        let ghost colors = row_colors(self.lo_byte, self.hi_byte, self.palette);
        let mut bit: u8 = 8;
        while bit > 0
            invariant
                bit <= 8,
                self.background_fifo.capacity() == FIFO_CAPACITY,
                self.background_fifo@ == old(self)@.background_fifo + colors.subrange(0, 8 - bit),
                old(self)@.background_fifo.len() <= 8,
                colors == row_colors(self.lo_byte, self.hi_byte, self.palette),
                self.frame == old(self).frame,
                self.mode == old(self).mode,
                self.current_scanline_cycles == old(self).current_scanline_cycles,
                self.fetcher_mode == old(self).fetcher_mode,
                self.fetcher_x == old(self).fetcher_x,
                self.scanline_x == old(self).scanline_x,
                self.tile_number == old(self).tile_number,
                self.tile_addr == old(self).tile_addr,
                self.lo_byte == old(self).lo_byte,
                self.hi_byte == old(self).hi_byte,
                self.palette == old(self).palette,
                self.pixels_to_discard == old(self).pixels_to_discard,
            decreases bit,
        {
            bit = bit - 1;
            let lo = self.lo_byte.get_bit(bit);
            let hi = self.hi_byte.get_bit(bit);
            let data: u8 = (hi << 1) | lo;
            let color: u32 = match data {
                0 => self.palette.0,
                1 => self.palette.1,
                2 => self.palette.2,
                _ => self.palette.3,
            };
            self.background_fifo.push(color);
            assert(self.background_fifo@ =~= old(self)@.background_fifo + colors.subrange(
                0,
                8 - bit,
            ));
        }
        assert(colors.subrange(0, 8) =~= colors);
        self.fetcher_x = if self.fetcher_x >= 31 { 0 } else { self.fetcher_x + 1 };
    }

    /// Steps the fetcher.
    #[verifier::rlimit(60)]
    pub fn fetch<B: Bus>(&mut self, bus: &B)
        requires
            old(self).sized(),
            old(self)@.fetcher_mode is Push ==> old(self)@.background_fifo.len() <= 8,
        ensures
            final(self).sized(),
            final(self)@ == old(self)@.fetched::<B>(bus@),
    {
        reveal(PpuState::fetched);
        match self.fetcher_mode {
            FetcherMode::GetTile => {
                self.tile_number = self.get_tile_number(bus);
                self.fetcher_mode = FetcherMode::TileDataLow;
            },
            FetcherMode::TileDataLow => {
                self.lo_byte = self.get_tile_data_low(bus);
                self.fetcher_mode = FetcherMode::TileDataHigh
            },
            FetcherMode::TileDataHigh => {
                self.hi_byte = self.get_tile_data_high(bus);
                self.fetcher_mode = FetcherMode::Push
            },
            FetcherMode::Push => {
                self.push_to_fifo();
                self.fetcher_mode = FetcherMode::GetTile;
            },
            FetcherMode::Sleep => (),
        }
    }

    /// Lets a pixel leave the queue, if it holds one.
    #[verifier::rlimit(60)]
    pub fn output_pixel<B: Bus>(&mut self, bus: &B)
        requires
            old(self).sized(),
            old(self)@.scanline_x < SCREEN_WIDTH,
        ensures
            final(self).sized(),
            final(self)@ == old(self)@.output::<B>(bus@),
    {
        reveal(PpuState::output);
        if self.background_fifo.len() > 0 {
            let color = self.background_fifo.pop();
            if self.pixels_to_discard > 0 {
                self.pixels_to_discard -= 1;
            } else {
                let ly = bus.read_u8(LCDRegister::Ly.into());
                self.set_pixel(self.scanline_x as usize, ly as usize, color);
                self.scanline_x += 1;
            }
        }
    }

    /// Puts the fetcher and the queue to the start of a scanline's
    /// pixels.
    pub fn restart<B: Bus>(&mut self, bus: &B)
        requires
            old(self).sized(),
        ensures
            final(self).sized(),
            final(self)@ == old(self)@.restarted::<B>(bus@),
    {
        let scx = bus.read_u8(LCDRegister::Scx.into());
        self.fetcher_x = scx >> 3;
        self.pixels_to_discard = scx & 7;
        self.background_fifo.clear();
        self.fetcher_mode = FetcherMode::GetTile;
    }

    /// Runs one clock cycle.
    #[verifier::rlimit(60)]
    pub fn cycle<B: Bus>(&mut self, bus: &mut B)
        requires
            old(self).wf(),
        ensures
            final(self).wf(),
            (final(self)@, final(bus)@) == old(self)@.ticked::<B>(old(bus)@),
    {
        reveal(PpuState::ticked);
        reveal(PpuState::fetched);
        reveal(PpuState::output);
        let fetcher_steps = self.current_scanline_cycles % 2 == 1;
        if self.current_scanline_cycles < CYCLE_COUNT_LIMIT {
            self.current_scanline_cycles += 1;
        } else {
            self.current_scanline_cycles -= 1;
        }
        match self.mode {
            PpuMode::OAMScan => {
                if self.current_scanline_cycles >= OAM_SCAN_CYCLES {
                    self.restart(bus);
                    self.mode = PpuMode::DrawingPixels;
                }
            },
            PpuMode::DrawingPixels => {
                if fetcher_steps {
                    self.fetch(bus);
                }
                self.output_pixel(bus);
                if self.scanline_x as usize >= SCREEN_WIDTH {
                    self.mode = PpuMode::HBlank;
                }
            },
            PpuMode::HBlank => {
                if self.current_scanline_cycles >= CYCLES_PER_SCANLINE {
                    self.restart(bus);
                    self.scanline_x = 0;
                    self.current_scanline_cycles = 0;
                    let mut ly = bus.read_u8(LCDRegister::Ly.into());
                    ly = ly.wrapping_add(1);
                    bus.write_u8(LCDRegister::Ly.into(), ly);
                    if ly >= VBLANK_START {
                        self.mode = PpuMode::VBlank
                    } else {
                        self.mode = PpuMode::OAMScan
                    }
                }
            },
            PpuMode::VBlank => {
                if self.current_scanline_cycles >= CYCLES_PER_SCANLINE {
                    self.current_scanline_cycles = 0;
                    let mut ly = bus.read_u8(LCDRegister::Ly.into());
                    ly = ly.wrapping_add(1);
                    if ly >= SCANLINES_PER_FRAME {
                        bus.write_u8(LCDRegister::Ly.into(), 0);
                        self.mode = PpuMode::OAMScan
                    } else {
                        bus.write_u8(LCDRegister::Ly.into(), ly);
                    }
                }
            },
        }
    }

    /// Runs the pipeline for `cycles` clock cycles. Nothing happens while
    /// the display is switched off.
    pub fn update_graphics<B: Bus>(&mut self, bus: &mut B, cycles: usize)
        requires
            old(self).wf(),
        ensures
            final(self).wf(),
            (final(self)@, final(bus)@) == old(self)@.updated::<B>(old(bus)@, cycles as nat),
    {
        let lcdc = bus.read_u8(LCDRegister::Lcdc.into());
        if lcdc.get_bit(7) == 0 {
            return ;
        }
        let mut i: usize = 0;
        while i < cycles
            invariant
                i <= cycles,
                self.wf(),
                (self@, bus@) == old(self)@.ran::<B>(old(bus)@, i as nat),
            decreases cycles - i,
        {
            self.cycle(bus);
            i = i + 1;
        }
    }
}

} // verus!
