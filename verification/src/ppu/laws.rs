//! What holds of the pixel pipeline over a scanline and over a frame.

use vstd::prelude::*;
use crate::bit_ops::bit_of;
use crate::lcd::{lcd_address, LCDRegister};
use crate::memory::laws::{
    lemma_flat_bus_is_plain, lemma_plain_address_is_plain, lemma_write_keeps_wf,
};
use crate::memory::{plain_at, Bus, DMGBus, DmgState, MemoryBus, MemoryView, RawBus};
use crate::ppu::{
    color_index, palette_color, row_colors, signed, tile_data_address, tile_number_address,
    FetcherMode, Palette, PpuMode, PpuState, CYCLES_PER_SCANLINE, OAM_SCAN_CYCLES,
    SCANLINES_PER_FRAME, SCREEN_HEIGHT, SCREEN_WIDTH, VBLANK_START,
};

verus! {

/// What a display register holds in a state of the bus.
pub open spec fn lcd<B: Bus>(mem: B::V, register: LCDRegister) -> u8 {
    B::peek(mem, lcd_address(register))
}

/// While the display is switched off, an update of any length changes
/// neither the pipeline, the frame included, nor the memory, LY
/// included.
pub proof fn lemma_display_off<B: Bus>(state: PpuState, mem: B::V, cycles: nat)
    requires
        bit_of(lcd::<B>(mem, LCDRegister::Lcdc), 7) == 0,
    ensures
        state.updated::<B>(mem, cycles) == (state, mem),
{
}

/// Running for `first + second` cycles is running for `first` cycles
/// and then for `second`, however the cycles are split.
pub proof fn lemma_ran_in_two_parts<B: Bus>(state: PpuState, mem: B::V, first: nat, second: nat)
    ensures
        state.ran::<B>(mem, first + second) == ({
            let (middle, mem) = state.ran::<B>(mem, first);
            middle.ran::<B>(mem, second)
        }),
    decreases second,
{
    if second > 0 {
        lemma_ran_in_two_parts::<B>(state, mem, first, (second - 1) as nat);
    }
}

/// The state at the start of a scanline: the state is well-formed, the
/// object search is ahead and no cycle of the scanline has passed.
pub open spec fn at_line_start(state: PpuState) -> bool {
    &&& state.wf()
    &&& state.mode is OAMScan
    &&& state.current_scanline_cycles == 0
}

/// The column of the tile map that the `k`-th tile of a scanline comes
/// from: the tiles follow each other from the column that the horizontal
/// scroll points to, and column 0 follows column 31.
pub open spec fn tile_column<B: Bus>(mem: B::V, k: int) -> u8 {
    (((lcd::<B>(mem, LCDRegister::Scx) >> 3) + k) % 32) as u8
}

/// The address of the row of the `k`-th tile of a scanline.
pub open spec fn tile_row_address<B: Bus>(mem: B::V, k: int) -> u16 {
    let lcdc = lcd::<B>(mem, LCDRegister::Lcdc);
    let ly = lcd::<B>(mem, LCDRegister::Ly);
    let scy = lcd::<B>(mem, LCDRegister::Scy);
    tile_data_address(
        lcdc,
        B::peek(mem, tile_number_address(lcdc, ly, scy, tile_column::<B>(mem, k))),
        ly,
        scy,
    )
}

/// The `m`-th pixel that the fetcher delivers on a scanline: pixel
/// `m % 8` of the row of tile `m / 8`.
pub open spec fn fetched_pixel<B: Bus>(mem: B::V, palette: Palette, m: int) -> u32 {
    let addr = tile_row_address::<B>(mem, m / 8);
    row_colors(B::peek(mem, addr), B::peek(mem, addr.wrapping_add(1)), palette)[m % 8]
}

/// The number of pixels that have left the queue after `n` cycles of a
/// scanline: the first leaves in the 88th cycle, one in every cycle after
/// that.
pub open spec fn pixels_out(n: int) -> int {
    if n >= 88 {
        n - 87
    } else {
        0
    }
}

/// The number of fetcher steps in the first `n` cycles of a scanline:
/// the fetcher steps in every second cycle from the 82nd on.
pub open spec fn steps_done(n: int) -> int {
    (n - 80) / 2
}

/// The number of tiles whose pixels the fetcher has pushed in the first
/// `n` cycles of a scanline: every fourth step pushes one.
pub open spec fn tiles_pushed(n: int) -> int {
    (n - 80) / 8
}

/// The pixels that the horizontal scroll hides at the start of a
/// scanline.
pub open spec fn hidden_pixels<B: Bus>(mem: B::V) -> int {
    (lcd::<B>(mem, LCDRegister::Scx) & 7) as int
}

/// The fetcher after `n` cycles of a scanline: which step is next, which
/// tile it is at, and what it has read of that tile.
pub open spec fn fetcher_after<B: Bus>(mem: B::V, n: int, state: PpuState) -> bool {
    let stage = steps_done(n) % 4;
    let tiles = tiles_pushed(n);
    &&& state.fetcher_mode == (if stage == 0 {
        FetcherMode::GetTile
    } else if stage == 1 {
        FetcherMode::TileDataLow
    } else if stage == 2 {
        FetcherMode::TileDataHigh
    } else {
        FetcherMode::Push
    })
    &&& state.fetcher_x == tile_column::<B>(mem, tiles)
    &&& stage >= 1 ==> state.tile_number == B::peek(
        mem,
        tile_number_address(
            lcd::<B>(mem, LCDRegister::Lcdc),
            lcd::<B>(mem, LCDRegister::Ly),
            lcd::<B>(mem, LCDRegister::Scy),
            tile_column::<B>(mem, tiles),
        ),
    )
    &&& stage >= 2 ==> state.tile_addr == tile_row_address::<B>(mem, tiles) && state.lo_byte
        == B::peek(mem, state.tile_addr)
    &&& stage >= 3 ==> state.hi_byte == B::peek(mem, state.tile_addr.wrapping_add(1))
}

/// A queue that holds the fetched pixels from number `first` up to
/// number `end`.
pub open spec fn queue_holds<B: Bus>(
    mem: B::V,
    palette: Palette,
    queue: Seq<u32>,
    first: int,
    end: int,
) -> bool {
    &&& queue.len() == end - first
    &&& forall|j: int|
        0 <= j < queue.len() ==> #[trigger] queue[j] == fetched_pixel::<B>(mem, palette, first + j)
}

/// The output after `out` pixels of a scanline have left the queue: the
/// first `hidden` of them were dropped, the others stand in the row LY
/// of the frame, and no other pixel of the frame has changed.
pub open spec fn output_after<B: Bus>(start: PpuState, mem: B::V, out: int, state: PpuState) -> bool {
    let hidden = hidden_pixels::<B>(mem);
    let row = lcd::<B>(mem, LCDRegister::Ly) * SCREEN_WIDTH;
    &&& state.palette == start.palette
    &&& state.pixels_to_discard == (if out < hidden { hidden - out } else { 0 })
    &&& state.scanline_x == (if out < hidden { 0 } else { out - hidden })
    &&& state.frame.len() == start.frame.len()
    &&& forall|x: int|
        0 <= x < state.scanline_x ==> #[trigger] state.frame[row + x] == fetched_pixel::<B>(
            mem,
            start.palette,
            hidden + x,
        )
    &&& forall|j: int|
        0 <= j < state.frame.len() && !(row <= j < row + state.scanline_x)
            ==> #[trigger] state.frame[j] == start.frame[j]
}

/// The state of the pipeline after `n` cycles of a scanline, from the
/// cycle in which the drawing of pixels begins to the cycle in which the
/// last pixel is drawn. `start` is the state at the start of the
/// scanline.
pub open spec fn drawing_after<B: Bus>(start: PpuState, mem: B::V, n: int, state: PpuState) -> bool {
    &&& state.mode == (if n < 247 + hidden_pixels::<B>(mem) {
        PpuMode::DrawingPixels
    } else {
        PpuMode::HBlank
    })
    &&& state.current_scanline_cycles == n
    &&& fetcher_after::<B>(mem, n, state)
    &&& queue_holds::<B>(
        mem,
        start.palette,
        state.background_fifo,
        pixels_out(n),
        8 * tiles_pushed(n),
    )
    &&& output_after::<B>(start, mem, pixels_out(n), state)
}

/// The object search: for the first 79 cycles of a scanline only the
/// cycles are counted.
pub proof fn lemma_object_search<B: Bus>(start: PpuState, mem: B::V, n: nat)
    requires
        at_line_start(start),
        n < OAM_SCAN_CYCLES,
    ensures
        start.ran::<B>(mem, n) == (PpuState { current_scanline_cycles: n as usize, ..start }, mem),
    decreases n,
{
    reveal(PpuState::ticked);
    if n > 0 {
        lemma_object_search::<B>(start, mem, (n - 1) as nat);
    }
}

proof fn lemma_scroll_bits(scx: u8)
    by (bit_vector)
    ensures
        (scx >> 3) < 32,
        (scx & 7) < 8,
{
}

/// The 80th cycle of a scanline begins the drawing of pixels.
#[verifier::rlimit(60)]
proof fn lemma_drawing_begins<B: Bus>(start: PpuState, mem: B::V)
    requires
        at_line_start(start),
    ensures
        start.ran::<B>(mem, 80).1 == mem,
        drawing_after::<B>(start, mem, 80, start.ran::<B>(mem, 80).0),
{
    reveal(PpuState::ticked);
    lemma_object_search::<B>(start, mem, 79);
    lemma_scroll_bits(lcd::<B>(mem, LCDRegister::Scx));
}

/// The pixels of the row of tile `tiles` are the fetched pixels from
/// number `8 * tiles` on.
proof fn lemma_row_is_fetched<B: Bus>(mem: B::V, palette: Palette, tiles: int, i: int)
    requires
        0 <= tiles,
        0 <= i < 8,
    ensures
        ({
            let addr = tile_row_address::<B>(mem, tiles);
            row_colors(B::peek(mem, addr), B::peek(mem, addr.wrapping_add(1)), palette)[i]
                == fetched_pixel::<B>(mem, palette, 8 * tiles + i)
        }),
{
    assert((8 * tiles + i) / 8 == tiles);
    assert((8 * tiles + i) % 8 == i);
}

/// A queue that takes the row of the next tile at its end holds the
/// fetched pixels up to the end of that tile.
#[verifier::rlimit(60)]
proof fn lemma_queue_takes_row<B: Bus>(
    mem: B::V,
    palette: Palette,
    queue: Seq<u32>,
    first: int,
    tiles: int,
)
    requires
        0 <= tiles,
        queue_holds::<B>(mem, palette, queue, first, 8 * tiles),
    ensures
        ({
            let addr = tile_row_address::<B>(mem, tiles);
            queue_holds::<B>(
                mem,
                palette,
                queue + row_colors(B::peek(mem, addr), B::peek(mem, addr.wrapping_add(1)), palette),
                first,
                8 * tiles + 8,
            )
        }),
{
    let addr = tile_row_address::<B>(mem, tiles);
    let colors = row_colors(B::peek(mem, addr), B::peek(mem, addr.wrapping_add(1)), palette);
    let longer = queue + colors;
    assert forall|j: int| 0 <= j < longer.len() implies #[trigger] longer[j] == fetched_pixel::<B>(
        mem,
        palette,
        first + j,
    ) by {
        if j >= queue.len() {
            lemma_row_is_fetched::<B>(mem, palette, tiles, j - queue.len());
            assert(longer[j] == colors[j - queue.len()]);
        } else {
            assert(longer[j] == queue[j]);
        }
    }
}

/// One step of the fetcher.
#[verifier::rlimit(60)]
proof fn lemma_fetcher_step<B: Bus>(mem: B::V, palette: Palette, n: int, state: PpuState)
    requires
        n >= 80,
        n % 2 == 1,
        state.palette == palette,
        fetcher_after::<B>(mem, n, state),
        queue_holds::<B>(mem, palette, state.background_fifo, pixels_out(n), 8 * tiles_pushed(n)),
    ensures
        ({
            let fetched = state.fetched::<B>(mem);
            &&& fetcher_after::<B>(mem, n + 1, fetched)
            &&& queue_holds::<B>(
                mem,
                palette,
                fetched.background_fifo,
                pixels_out(n),
                8 * tiles_pushed(n + 1),
            )
            &&& fetched == (PpuState {
                fetcher_mode: fetched.fetcher_mode,
                fetcher_x: fetched.fetcher_x,
                tile_number: fetched.tile_number,
                tile_addr: fetched.tile_addr,
                lo_byte: fetched.lo_byte,
                hi_byte: fetched.hi_byte,
                background_fifo: fetched.background_fifo,
                ..state
            })
        }),
{
    reveal(PpuState::fetched);
    lemma_scroll_bits(lcd::<B>(mem, LCDRegister::Scx));
    let tiles = tiles_pushed(n);
    let pushes = n % 8 == 7;
    assert(pushes <==> steps_done(n) % 4 == 3);
    assert(tiles_pushed(n + 1) == (if pushes { tiles + 1 } else { tiles }));
    assert(steps_done(n + 1) == steps_done(n) + 1);
    if pushes {
        lemma_queue_takes_row::<B>(mem, palette, state.background_fifo, pixels_out(n), tiles);
    }
}

/// The output of one cycle.
#[verifier::rlimit(60)]
proof fn lemma_output_step<B: Bus>(start: PpuState, mem: B::V, out: int, end: int, state: PpuState)
    requires
        0 <= out,
        lcd::<B>(mem, LCDRegister::Ly) < SCREEN_HEIGHT,
        start.frame.len() == SCREEN_WIDTH * SCREEN_HEIGHT,
        out < SCREEN_WIDTH + hidden_pixels::<B>(mem),
        queue_holds::<B>(mem, start.palette, state.background_fifo, out, end),
        output_after::<B>(start, mem, out, state),
    ensures
        ({
            let drawn = state.output::<B>(mem);
            let left = if end > out { out + 1 } else { out };
            &&& queue_holds::<B>(mem, start.palette, drawn.background_fifo, left, end)
            &&& output_after::<B>(start, mem, left, drawn)
            &&& drawn == (PpuState {
                background_fifo: drawn.background_fifo,
                pixels_to_discard: drawn.pixels_to_discard,
                frame: drawn.frame,
                scanline_x: drawn.scanline_x,
                ..state
            })
        }),
{
    reveal(PpuState::output);
    lemma_scroll_bits(lcd::<B>(mem, LCDRegister::Scx));
    let hidden = hidden_pixels::<B>(mem);
    let ly = lcd::<B>(mem, LCDRegister::Ly);
    let drawn = state.output::<B>(mem);
    if end > out {
        let color = state.background_fifo[0];
        assert(color == fetched_pixel::<B>(mem, start.palette, out + 0));
        assert forall|j: int| 0 <= j < drawn.background_fifo.len() implies #[trigger] drawn.background_fifo[j]
            == fetched_pixel::<B>(mem, start.palette, out + 1 + j) by {
            assert(drawn.background_fifo[j] == state.background_fifo[j + 1]);
        }
        if out >= hidden {
            let x = out - hidden;
            assert(drawn.frame == state.frame.update(ly * SCREEN_WIDTH + x, color));
        }
    }
}

/// One cycle of drawing: from the state after `n` cycles of a scanline
/// to the state after `n + 1`.
#[verifier::rlimit(60)]
proof fn lemma_drawing_step<B: Bus>(start: PpuState, mem: B::V, n: int, state: PpuState)
    requires
        80 <= n < 247 + hidden_pixels::<B>(mem),
        lcd::<B>(mem, LCDRegister::Ly) < SCREEN_HEIGHT,
        start.frame.len() == SCREEN_WIDTH * SCREEN_HEIGHT,
        drawing_after::<B>(start, mem, n, state),
    ensures
        state.ticked::<B>(mem).1 == mem,
        drawing_after::<B>(start, mem, n + 1, state.ticked::<B>(mem).0),
{
    reveal(PpuState::ticked);
    lemma_scroll_bits(lcd::<B>(mem, LCDRegister::Scx));
    let counted = PpuState { current_scanline_cycles: (n + 1) as usize, ..state };
    let fetched = if n % 2 == 1 { counted.fetched::<B>(mem) } else { counted };
    if n % 2 == 1 {
        lemma_fetcher_step::<B>(mem, start.palette, n, counted);
    } else {
        assert(tiles_pushed(n + 1) == tiles_pushed(n));
        assert(steps_done(n + 1) == steps_done(n));
    }
    lemma_output_step::<B>(start, mem, pixels_out(n), 8 * tiles_pushed(n + 1), fetched);
    assert(8 * tiles_pushed(n + 1) > pixels_out(n) <==> n >= 87);
}

/// The drawing of pixels: the state after `n` cycles of a scanline, for
/// every `n` from the 80th cycle to the cycle that draws the last pixel.
pub proof fn lemma_drawing<B: Bus>(start: PpuState, mem: B::V, n: nat)
    requires
        at_line_start(start),
        lcd::<B>(mem, LCDRegister::Ly) < SCREEN_HEIGHT,
        80 <= n <= 247 + hidden_pixels::<B>(mem),
    ensures
        start.ran::<B>(mem, n).1 == mem,
        drawing_after::<B>(start, mem, n as int, start.ran::<B>(mem, n).0),
    decreases n,
{
    if n == 80 {
        lemma_drawing_begins::<B>(start, mem);
    } else {
        lemma_drawing::<B>(start, mem, (n - 1) as nat);
        lemma_drawing_step::<B>(start, mem, n - 1, start.ran::<B>(mem, (n - 1) as nat).0);
    }
}

/// The horizontal blank: from the cycle that draws the last pixel to the
/// 455th cycle of a scanline only the cycles are counted.
#[verifier::rlimit(60)]
pub proof fn lemma_horizontal_blank<B: Bus>(start: PpuState, mem: B::V, n: nat)
    requires
        at_line_start(start),
        lcd::<B>(mem, LCDRegister::Ly) < SCREEN_HEIGHT,
        247 + hidden_pixels::<B>(mem) <= n < CYCLES_PER_SCANLINE,
    ensures
        start.ran::<B>(mem, n) == (
            PpuState {
                current_scanline_cycles: n as usize,
                ..start.ran::<B>(mem, (247 + hidden_pixels::<B>(mem)) as nat).0
            },
            mem,
        ),
    decreases n,
{
    reveal(PpuState::ticked);
    lemma_scroll_bits(lcd::<B>(mem, LCDRegister::Scx));
    lemma_drawing::<B>(start, mem, (247 + hidden_pixels::<B>(mem)) as nat);
    if n > 247 + hidden_pixels::<B>(mem) {
        lemma_horizontal_blank::<B>(start, mem, (n - 1) as nat);
    }
}

/// A scanline of the picture. From its start at a scanline LY below 144,
/// 456 cycles take the pipeline through the object search (cycles 0 to
/// 79), the drawing of pixels (from cycle 80) and the horizontal blank
/// (up to cycle 455) to the start of the next scanline: LY is written
/// once, with its value plus one, and the vertical blank begins where
/// that is 144. The 160 pixels of row LY of the frame are the fetched
/// pixels that follow the first SCX & 7, which are dropped. No other row
/// of the frame changes.
#[verifier::rlimit(60)]
pub proof fn lemma_visible_scanline<B: Bus>(start: PpuState, mem: B::V)
    requires
        at_line_start(start),
        lcd::<B>(mem, LCDRegister::Ly) < SCREEN_HEIGHT,
    ensures
        ({
            let ly = lcd::<B>(mem, LCDRegister::Ly);
            let hidden = hidden_pixels::<B>(mem);
            let (end, end_mem) = start.ran::<B>(mem, CYCLES_PER_SCANLINE as nat);
            &&& start.ran::<B>(mem, 79).0.mode is OAMScan
            &&& start.ran::<B>(mem, 80).0.mode is DrawingPixels
            &&& start.ran::<B>(mem, (246 + hidden) as nat).0.mode is DrawingPixels
            &&& start.ran::<B>(mem, (247 + hidden) as nat).0.mode is HBlank
            &&& start.ran::<B>(mem, 455).0.mode is HBlank
            &&& start.ran::<B>(mem, 455).1 == mem
            &&& end_mem == B::poke(mem, lcd_address(LCDRegister::Ly), (ly + 1) as u8)
            &&& end.mode == (if ly + 1 >= VBLANK_START { PpuMode::VBlank } else { PpuMode::OAMScan })
            &&& end.current_scanline_cycles == 0
            &&& end.scanline_x == 0
            &&& end.palette == start.palette
            &&& end.wf()
            &&& end.frame.len() == start.frame.len()
            &&& forall|x: int|
                0 <= x < SCREEN_WIDTH ==> #[trigger] end.frame[ly * SCREEN_WIDTH + x]
                    == fetched_pixel::<B>(mem, start.palette, hidden + x)
            &&& forall|j: int|
                0 <= j < end.frame.len() && !(ly * SCREEN_WIDTH <= j < ly * SCREEN_WIDTH
                    + SCREEN_WIDTH) ==> #[trigger] end.frame[j] == start.frame[j]
        }),
{
    reveal(PpuState::ticked);
    lemma_scroll_bits(lcd::<B>(mem, LCDRegister::Scx));
    let hidden = hidden_pixels::<B>(mem);
    lemma_object_search::<B>(start, mem, 79);
    lemma_drawing::<B>(start, mem, 80);
    lemma_drawing::<B>(start, mem, (246 + hidden) as nat);
    lemma_drawing::<B>(start, mem, (247 + hidden) as nat);
    lemma_horizontal_blank::<B>(start, mem, 455);
}

/// The state at the start of a scanline of the vertical blank.
pub open spec fn at_blank_line_start(state: PpuState) -> bool {
    &&& state.wf()
    &&& state.mode is VBlank
    &&& state.current_scanline_cycles == 0
}

/// Within a scanline of the vertical blank only the cycles are counted.
pub proof fn lemma_vertical_blank<B: Bus>(start: PpuState, mem: B::V, n: nat)
    requires
        at_blank_line_start(start),
        n < CYCLES_PER_SCANLINE,
    ensures
        start.ran::<B>(mem, n) == (PpuState { current_scanline_cycles: n as usize, ..start }, mem),
    decreases n,
{
    reveal(PpuState::ticked);
    if n > 0 {
        lemma_vertical_blank::<B>(start, mem, (n - 1) as nat);
    }
}

/// A scanline of the vertical blank. 456 cycles change nothing but LY:
/// it is written once, with its value plus one, or with 0 where that is
/// 154 or more, and then the object search of scanline 0 begins.
#[verifier::rlimit(60)]
pub proof fn lemma_blank_scanline<B: Bus>(start: PpuState, mem: B::V)
    requires
        at_blank_line_start(start),
    ensures
        ({
            let next = lcd::<B>(mem, LCDRegister::Ly).wrapping_add(1);
            let (end, end_mem) = start.ran::<B>(mem, CYCLES_PER_SCANLINE as nat);
            if next >= SCANLINES_PER_FRAME {
                &&& end == (PpuState { mode: PpuMode::OAMScan, ..start })
                &&& end_mem == B::poke(mem, lcd_address(LCDRegister::Ly), 0)
            } else {
                &&& end == start
                &&& end_mem == B::poke(mem, lcd_address(LCDRegister::Ly), next)
            }
        }),
{
    reveal(PpuState::ticked);
    lemma_vertical_blank::<B>(start, mem, 455);
}

/// Whether a property of bus states makes LY plain memory: it holds on
/// after every write to LY, and in every state in which it holds, a
/// write to LY changes what a read of LY returns and what no other read
/// returns.
pub open spec fn keeps_ly_plain<B: Bus>(good: spec_fn(B::V) -> bool) -> bool {
    &&& forall|m: B::V| #[trigger] good(m) ==> plain_at::<B>(m, lcd_address(LCDRegister::Ly))
    &&& forall|m: B::V, value: u8|
        good(m) ==> #[trigger] good(B::poke(m, lcd_address(LCDRegister::Ly), value))
}

/// The state at the start of scanline `line` of a frame: the object
/// search is ahead on the scanlines of the picture, the vertical blank
/// runs on scanlines 144 to 153. LY holds the number of the scanline.
pub open spec fn at_start_of_line<B: Bus>(state: PpuState, mem: B::V, line: int) -> bool {
    &&& lcd::<B>(mem, LCDRegister::Ly) == line
    &&& if line < VBLANK_START {
        at_line_start(state)
    } else {
        at_blank_line_start(state)
    }
}

/// A frame. From the start of scanline 0, every 456 cycles begin the
/// next scanline: the scanlines 0 to 143 begin with the object search,
/// the ten scanlines 144 to 153 lie in the vertical blank, and after 154
/// scanlines LY is 0 again and the object search of the next frame
/// begins.
#[verifier::rlimit(60)]
pub proof fn lemma_frame<B: Bus>(
    start: PpuState,
    mem: B::V,
    lines: nat,
    good: spec_fn(B::V) -> bool,
)
    requires
        keeps_ly_plain::<B>(good),
        good(mem),
        at_start_of_line::<B>(start, mem, 0),
        lines <= SCANLINES_PER_FRAME,
    ensures
        ({
            let (state, end_mem) = start.ran::<B>(mem, CYCLES_PER_SCANLINE as nat * lines);
            &&& good(end_mem)
            &&& state.palette == start.palette
            &&& at_start_of_line::<B>(
                state,
                end_mem,
                if lines == SCANLINES_PER_FRAME { 0 } else { lines as int },
            )
        }),
    decreases lines,
{
    if lines > 0 {
        let done = (lines - 1) as nat;
        lemma_frame::<B>(start, mem, done, good);
        let (middle, middle_mem) = start.ran::<B>(mem, CYCLES_PER_SCANLINE as nat * done);
        assert(CYCLES_PER_SCANLINE as nat * lines == CYCLES_PER_SCANLINE as nat * done
            + CYCLES_PER_SCANLINE as nat) by (nonlinear_arith)
            requires
                done + 1 == lines,
        ;
        assert((CYCLES_PER_SCANLINE as nat * done) % 2 == 0) by (nonlinear_arith)
            requires
                CYCLES_PER_SCANLINE == 456,
        ;
        lemma_ran_in_two_parts::<B>(
            start,
            mem,
            CYCLES_PER_SCANLINE as nat * done,
            CYCLES_PER_SCANLINE as nat,
        );
        assert(plain_at::<B>(middle_mem, lcd_address(LCDRegister::Ly)));
        if done < VBLANK_START {
            lemma_visible_scanline::<B>(middle, middle_mem);
        } else {
            lemma_blank_scanline::<B>(middle, middle_mem);
        }
    }
}

/// A frame on a flat bus.
pub proof fn lemma_frame_on_flat_bus(start: PpuState, mem: Map<u16, u8>, lines: nat)
    requires
        at_start_of_line::<RawBus>(start, mem, 0),
        lines <= SCANLINES_PER_FRAME,
    ensures
        at_start_of_line::<RawBus>(
            start.ran::<RawBus>(mem, CYCLES_PER_SCANLINE as nat * lines).0,
            start.ran::<RawBus>(mem, CYCLES_PER_SCANLINE as nat * lines).1,
            if lines == SCANLINES_PER_FRAME { 0 } else { lines as int },
        ),
{
    let good = |m: Map<u16, u8>| true;
    assert forall|m: Map<u16, u8>| #[trigger] good(m) implies plain_at::<RawBus>(
        m,
        lcd_address(LCDRegister::Ly),
    ) by {
        lemma_flat_bus_is_plain(m, lcd_address(LCDRegister::Ly));
    }
    lemma_frame::<RawBus>(start, mem, lines, good);
}

/// A frame on the console's bus.
pub proof fn lemma_frame_on_console_bus(start: PpuState, mem: DmgState, lines: nat)
    requires
        mem.wf(),
        at_start_of_line::<DMGBus>(start, mem, 0),
        lines <= SCANLINES_PER_FRAME,
    ensures
        at_start_of_line::<DMGBus>(
            start.ran::<DMGBus>(mem, CYCLES_PER_SCANLINE as nat * lines).0,
            start.ran::<DMGBus>(mem, CYCLES_PER_SCANLINE as nat * lines).1,
            if lines == SCANLINES_PER_FRAME { 0 } else { lines as int },
        ),
{
    let good = |m: DmgState| m.wf();
    assert forall|m: DmgState| #[trigger] good(m) implies plain_at::<DMGBus>(
        m,
        lcd_address(LCDRegister::Ly),
    ) by {
        lemma_plain_address_is_plain(m, lcd_address(LCDRegister::Ly));
    }
    assert forall|m: DmgState, value: u8| good(m) implies #[trigger] good(
        DMGBus::poke(m, lcd_address(LCDRegister::Ly), value),
    ) by {
        lemma_write_keeps_wf(m, lcd_address(LCDRegister::Ly), value);
    }
    lemma_frame::<DMGBus>(start, mem, lines, good);
}

/// Whether the display is switched on in a state of the bus.
pub open spec fn display_on<B: Bus>(mem: B::V) -> bool {
    bit_of(lcd::<B>(mem, LCDRegister::Lcdc), 7) != 0
}

/// Whether a property of bus states holds on after every write to LY,
/// and no write to LY in a state in which it holds changes what a read
/// of the display control register returns.
pub open spec fn keeps_display_control<B: Bus>(good: spec_fn(B::V) -> bool) -> bool {
    forall|m: B::V, value: u8|
        good(m) ==> {
            &&& #[trigger] good(B::poke(m, lcd_address(LCDRegister::Ly), value))
            &&& lcd::<B>(B::poke(m, lcd_address(LCDRegister::Ly), value), LCDRegister::Lcdc)
                == lcd::<B>(m, LCDRegister::Lcdc)
        }
}

/// The pipeline writes nothing but LY: after any number of cycles the
/// display control register reads what it read before.
pub proof fn lemma_ran_keeps_display_control<B: Bus>(
    state: PpuState,
    mem: B::V,
    cycles: nat,
    good: spec_fn(B::V) -> bool,
)
    requires
        keeps_display_control::<B>(good),
        good(mem),
    ensures
        good(state.ran::<B>(mem, cycles).1),
        lcd::<B>(state.ran::<B>(mem, cycles).1, LCDRegister::Lcdc) == lcd::<B>(
            mem,
            LCDRegister::Lcdc,
        ),
    decreases cycles,
{
    reveal(PpuState::ticked);
    if cycles > 0 {
        lemma_ran_keeps_display_control::<B>(state, mem, (cycles - 1) as nat, good);
    }
}

/// An update by `first + second` cycles is an update by `first` cycles
/// followed by one by `second` cycles, for every state and every two
/// counts, on a bus on which a write to LY leaves the display control
/// register alone.
pub proof fn lemma_update_in_two_parts<B: Bus>(
    state: PpuState,
    mem: B::V,
    first: nat,
    second: nat,
    good: spec_fn(B::V) -> bool,
)
    requires
        keeps_display_control::<B>(good),
        good(mem),
    ensures
        state.updated::<B>(mem, first + second) == ({
            let (middle, mem) = state.updated::<B>(mem, first);
            middle.updated::<B>(mem, second)
        }),
{
    if display_on::<B>(mem) {
        lemma_ran_keeps_display_control::<B>(state, mem, first, good);
        lemma_ran_in_two_parts::<B>(state, mem, first, second);
    }
}

/// Splitting an update on a flat bus.
pub proof fn lemma_update_in_two_parts_on_flat_bus(
    state: PpuState,
    mem: Map<u16, u8>,
    first: nat,
    second: nat,
)
    ensures
        state.updated::<RawBus>(mem, first + second) == ({
            let (middle, mem) = state.updated::<RawBus>(mem, first);
            middle.updated::<RawBus>(mem, second)
        }),
{
    lemma_update_in_two_parts::<RawBus>(state, mem, first, second, |m: Map<u16, u8>| true);
}

/// Splitting an update on a sized memory.
pub proof fn lemma_update_in_two_parts_on_sized_memory(
    state: PpuState,
    mem: MemoryView,
    first: nat,
    second: nat,
)
    ensures
        state.updated::<MemoryBus>(mem, first + second) == ({
            let (middle, mem) = state.updated::<MemoryBus>(mem, first);
            middle.updated::<MemoryBus>(mem, second)
        }),
{
    lemma_update_in_two_parts::<MemoryBus>(state, mem, first, second, |m: MemoryView| true);
}

/// Splitting an update on the console's bus.
pub proof fn lemma_update_in_two_parts_on_console_bus(
    state: PpuState,
    mem: DmgState,
    first: nat,
    second: nat,
)
    requires
        mem.wf(),
    ensures
        state.updated::<DMGBus>(mem, first + second) == ({
            let (middle, mem) = state.updated::<DMGBus>(mem, first);
            middle.updated::<DMGBus>(mem, second)
        }),
{
    lemma_update_in_two_parts::<DMGBus>(state, mem, first, second, |m: DmgState| m.wf());
}

/// The mode of the pipeline after `n` cycles of a scanline of the
/// picture that hides `hidden` pixels: the object search for 80 cycles,
/// then the drawing of pixels up to the cycle that draws the 160th, then
/// the horizontal blank.
pub open spec fn scanline_mode(hidden: int, n: int) -> PpuMode {
    if n < OAM_SCAN_CYCLES {
        PpuMode::OAMScan
    } else if n < 247 + hidden {
        PpuMode::DrawingPixels
    } else {
        PpuMode::HBlank
    }
}

/// The number of pixels of a scanline that stand in the frame after `n`
/// cycles: one more with every cycle from the first pixel that is not
/// hidden to the 160th.
pub open spec fn pixels_drawn(hidden: int, n: int) -> int {
    if n < 88 + hidden {
        0
    } else if n < 247 + hidden {
        n - 87 - hidden
    } else {
        SCREEN_WIDTH as int
    }
}

/// Within a scanline of the picture. After `n` of its 456 cycles, from
/// its start at a scanline LY below 144 with the display switched on,
/// the memory is as it was, so that LY is still the scanline; the mode
/// is that of `scanline_mode`, which is never the vertical blank; the
/// first `pixels_drawn` cells of row LY of the frame hold their pixels,
/// the cells from left to right, one more with every cycle; and every
/// other cell of the frame is as it was.
#[verifier::rlimit(60)]
pub proof fn lemma_scanline_timeline<B: Bus>(start: PpuState, mem: B::V, n: nat)
    requires
        at_line_start(start),
        display_on::<B>(mem),
        lcd::<B>(mem, LCDRegister::Ly) < SCREEN_HEIGHT,
        n < CYCLES_PER_SCANLINE,
    ensures
        ({
            let hidden = hidden_pixels::<B>(mem);
            let row = lcd::<B>(mem, LCDRegister::Ly) * SCREEN_WIDTH;
            let (state, now) = start.updated::<B>(mem, n);
            &&& now == mem
            &&& state.mode == scanline_mode(hidden, n as int)
            &&& !(state.mode is VBlank)
            &&& state.current_scanline_cycles == n
            &&& state.frame.len() == start.frame.len()
            &&& forall|x: int|
                0 <= x < pixels_drawn(hidden, n as int) ==> #[trigger] state.frame[row + x]
                    == fetched_pixel::<B>(mem, start.palette, hidden + x)
            &&& forall|j: int|
                0 <= j < state.frame.len() && !(row <= j < row + pixels_drawn(hidden, n as int))
                    ==> #[trigger] state.frame[j] == start.frame[j]
        }),
{
    lemma_scroll_bits(lcd::<B>(mem, LCDRegister::Scx));
    let hidden = hidden_pixels::<B>(mem);
    if n < 80 {
        lemma_object_search::<B>(start, mem, n);
    } else if n <= 247 + hidden {
        lemma_drawing::<B>(start, mem, n);
    } else {
        lemma_drawing::<B>(start, mem, (247 + hidden) as nat);
        lemma_horizontal_blank::<B>(start, mem, n);
    }
}

/// A scanline of the picture in one update. From the start of a scanline
/// LY below 144, with the display switched on, an update by 456 cycles
/// writes LY once, with its value plus one, and leaves the pipeline at
/// the start of the next scanline with no cycle counted: in the object
/// search, or in the vertical blank where the next scanline is 144. Row
/// LY of the frame then holds the 160 fetched pixels that follow the
/// first SCX & 7, and no other cell of the frame has changed.
pub proof fn lemma_scanline_update<B: Bus>(start: PpuState, mem: B::V)
    requires
        at_line_start(start),
        display_on::<B>(mem),
        lcd::<B>(mem, LCDRegister::Ly) < SCREEN_HEIGHT,
    ensures
        ({
            let ly = lcd::<B>(mem, LCDRegister::Ly);
            let hidden = hidden_pixels::<B>(mem);
            let (end, end_mem) = start.updated::<B>(mem, CYCLES_PER_SCANLINE as nat);
            &&& end_mem == B::poke(mem, lcd_address(LCDRegister::Ly), (ly + 1) as u8)
            &&& end.wf()
            &&& end.current_scanline_cycles == 0
            &&& end.mode == (if ly + 1 >= VBLANK_START { PpuMode::VBlank } else { PpuMode::OAMScan })
            &&& end.palette == start.palette
            &&& end.frame.len() == start.frame.len()
            &&& forall|x: int|
                0 <= x < SCREEN_WIDTH ==> #[trigger] end.frame[ly * SCREEN_WIDTH + x]
                    == fetched_pixel::<B>(mem, start.palette, hidden + x)
            &&& forall|j: int|
                0 <= j < end.frame.len() && !(ly * SCREEN_WIDTH <= j < ly * SCREEN_WIDTH
                    + SCREEN_WIDTH) ==> #[trigger] end.frame[j] == start.frame[j]
        }),
{
    lemma_visible_scanline::<B>(start, mem);
}

/// A scanline of the vertical blank in one update, with the display
/// switched on. For 455 cycles nothing changes but the count of cycles,
/// so that the mode stays the vertical blank and LY stays the scanline.
/// The 456th cycle writes LY once: with its value plus one, or with 0
/// where that is 154 or more, and then the object search of scanline 0
/// begins.
pub proof fn lemma_blank_scanline_update<B: Bus>(start: PpuState, mem: B::V, n: nat)
    requires
        at_blank_line_start(start),
        display_on::<B>(mem),
        n < CYCLES_PER_SCANLINE,
    ensures
        start.updated::<B>(mem, n) == (PpuState { current_scanline_cycles: n as usize, ..start }, mem),
        ({
            let next = lcd::<B>(mem, LCDRegister::Ly).wrapping_add(1);
            let (end, end_mem) = start.updated::<B>(mem, CYCLES_PER_SCANLINE as nat);
            if next >= SCANLINES_PER_FRAME {
                &&& end == (PpuState { mode: PpuMode::OAMScan, ..start })
                &&& end_mem == B::poke(mem, lcd_address(LCDRegister::Ly), 0)
            } else {
                &&& end == start
                &&& end_mem == B::poke(mem, lcd_address(LCDRegister::Ly), next)
            }
        }),
{
    lemma_vertical_blank::<B>(start, mem, n);
    lemma_blank_scanline::<B>(start, mem);
}

/// The state and the memory after `times` updates by `cycles` cycles
/// each.
pub open spec fn updated_times<B: Bus>(state: PpuState, mem: B::V, cycles: nat, times: nat) -> (
    PpuState,
    B::V,
)
    decreases times,
{
    if times == 0 {
        (state, mem)
    } else {
        let (state, mem) = updated_times::<B>(state, mem, cycles, (times - 1) as nat);
        state.updated::<B>(mem, cycles)
    }
}

/// A frame in updates of one scanline each. From the start of scanline
/// 0, with the display switched on, every update by 456 cycles begins
/// the next scanline, and LY is its number: the 144 scanlines 0 to 143
/// begin with the object search, the ten scanlines 144 to 153 lie in the
/// vertical blank, and after 154 updates LY is 0 again, no cycle is
/// counted and the object search of the next frame begins. LY is never
/// above 153.
#[verifier::rlimit(60)]
pub proof fn lemma_frame_in_updates<B: Bus>(
    start: PpuState,
    mem: B::V,
    updates: nat,
    good: spec_fn(B::V) -> bool,
)
    requires
        keeps_ly_plain::<B>(good),
        good(mem),
        display_on::<B>(mem),
        at_start_of_line::<B>(start, mem, 0),
        updates <= SCANLINES_PER_FRAME,
    ensures
        ({
            let (state, end_mem) = updated_times::<B>(
                start,
                mem,
                CYCLES_PER_SCANLINE as nat,
                updates,
            );
            &&& good(end_mem)
            &&& display_on::<B>(end_mem)
            &&& state.palette == start.palette
            &&& state.current_scanline_cycles == 0
            &&& lcd::<B>(end_mem, LCDRegister::Ly) <= 153
            &&& at_start_of_line::<B>(
                state,
                end_mem,
                if updates == SCANLINES_PER_FRAME { 0 } else { updates as int },
            )
        }),
    decreases updates,
{
    if updates > 0 {
        let done = (updates - 1) as nat;
        lemma_frame_in_updates::<B>(start, mem, done, good);
        let (middle, middle_mem) = updated_times::<B>(
            start,
            mem,
            CYCLES_PER_SCANLINE as nat,
            done,
        );
        assert(plain_at::<B>(middle_mem, lcd_address(LCDRegister::Ly)));
        if done < VBLANK_START {
            lemma_scanline_update::<B>(middle, middle_mem);
        } else {
            lemma_blank_scanline_update::<B>(middle, middle_mem, 0);
        }
    }
}

/// A frame in 154 updates on a flat bus.
pub proof fn lemma_frame_in_updates_on_flat_bus(start: PpuState, mem: Map<u16, u8>, updates: nat)
    requires
        display_on::<RawBus>(mem),
        at_start_of_line::<RawBus>(start, mem, 0),
        updates <= SCANLINES_PER_FRAME,
    ensures
        at_start_of_line::<RawBus>(
            updated_times::<RawBus>(start, mem, CYCLES_PER_SCANLINE as nat, updates).0,
            updated_times::<RawBus>(start, mem, CYCLES_PER_SCANLINE as nat, updates).1,
            if updates == SCANLINES_PER_FRAME { 0 } else { updates as int },
        ),
{
    let good = |m: Map<u16, u8>| true;
    assert forall|m: Map<u16, u8>| #[trigger] good(m) implies plain_at::<RawBus>(
        m,
        lcd_address(LCDRegister::Ly),
    ) by {
        lemma_flat_bus_is_plain(m, lcd_address(LCDRegister::Ly));
    }
    lemma_frame_in_updates::<RawBus>(start, mem, updates, good);
}

/// A frame in 154 updates on the console's bus.
pub proof fn lemma_frame_in_updates_on_console_bus(start: PpuState, mem: DmgState, updates: nat)
    requires
        mem.wf(),
        display_on::<DMGBus>(mem),
        at_start_of_line::<DMGBus>(start, mem, 0),
        updates <= SCANLINES_PER_FRAME,
    ensures
        at_start_of_line::<DMGBus>(
            updated_times::<DMGBus>(start, mem, CYCLES_PER_SCANLINE as nat, updates).0,
            updated_times::<DMGBus>(start, mem, CYCLES_PER_SCANLINE as nat, updates).1,
            if updates == SCANLINES_PER_FRAME { 0 } else { updates as int },
        ),
{
    let good = |m: DmgState| m.wf();
    assert forall|m: DmgState| #[trigger] good(m) implies plain_at::<DMGBus>(
        m,
        lcd_address(LCDRegister::Ly),
    ) by {
        lemma_plain_address_is_plain(m, lcd_address(LCDRegister::Ly));
    }
    assert forall|m: DmgState, value: u8| good(m) implies #[trigger] good(
        DMGBus::poke(m, lcd_address(LCDRegister::Ly), value),
    ) by {
        lemma_write_keeps_wf(m, lcd_address(LCDRegister::Ly), value);
    }
    lemma_frame_in_updates::<DMGBus>(start, mem, updates, good);
}

/// The colour of the background at column `x` of row `y`, both counted
/// in the 256 by 256 pixels of the tile map. The map that LCDC bit 3
/// selects gives the number of the tile, 32 tiles to a row; LCDC bit 4
/// says where the tile's 16 bytes lie; two of them hold the tile's row,
/// and the leftmost pixel is bit 7.
pub open spec fn background_pixel<B: Bus>(mem: B::V, palette: Palette, x: int, y: int) -> u32 {
    let lcdc = lcd::<B>(mem, LCDRegister::Lcdc);
    let map = if lcdc & 0x08 != 0 { 0x9C00int } else { 0x9800int };
    let tile_number = B::peek(mem, (map + 32 * (y / 8) + x / 8) as u16);
    let tile = if lcdc & 0x10 != 0 { 0x8000 + 16 * tile_number } else { 0x9000 + 16 * signed(tile_number) };
    let row = (tile + 2 * (y % 8)) as u16;
    palette_color(
        palette,
        color_index(B::peek(mem, row), B::peek(mem, row.wrapping_add(1)), (7 - x % 8) as u8),
    )
}

proof fn lemma_scroll_parts(scx: u8)
    by (bit_vector)
    ensures
        (scx >> 3) == scx / 8,
        (scx & 7) == scx % 8,
{
}

/// The pixels of a scanline are those of the scrolled background: the
/// pixel that the fetcher delivers for column `x` of the frame, after
/// the SCX & 7 hidden ones, is the background pixel in column
/// `(SCX + x) % 256` of row `(LY + SCY) % 256`.
#[verifier::rlimit(60)]
pub proof fn lemma_fetched_pixel_is_background<B: Bus>(mem: B::V, palette: Palette, x: int)
    requires
        0 <= x < SCREEN_WIDTH,
    ensures
        fetched_pixel::<B>(mem, palette, hidden_pixels::<B>(mem) + x) == background_pixel::<B>(
            mem,
            palette,
            (lcd::<B>(mem, LCDRegister::Scx) + x) % 256,
            (lcd::<B>(mem, LCDRegister::Ly) + lcd::<B>(mem, LCDRegister::Scy)) % 256,
        ),
{
    let scx = lcd::<B>(mem, LCDRegister::Scx);
    let ly = lcd::<B>(mem, LCDRegister::Ly);
    let scy = lcd::<B>(mem, LCDRegister::Scy);
    lemma_scroll_parts(scx);
    let m = hidden_pixels::<B>(mem) + x;
    let bx = (scx + x) % 256;
    let by = (ly + scy) % 256;
    assert(scx + x == 8 * (scx / 8) + m);
    assert(bx / 8 == (scx / 8 + m / 8) % 32);
    assert(bx % 8 == m % 8);
    assert(by % 8 == (ly + scy) % 8);
    assert(tile_column::<B>(mem, m / 8) == bx / 8);
}

} // verus!
