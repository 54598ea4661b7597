//! The pixels of a window, kept apart from the window itself.

use vstd::prelude::*;
use crate::errors::DrawOutOfBoundsError;

verus! {

/// A packed colour, 0xRRGGBB.
pub type Color = u32;

pub const BLACK: Color = 0x00000000;

pub const WHITE: Color = 0x00FFFFFF;

/// The colour with the given red, green and blue.
pub open spec fn packed(r: u8, g: u8, b: u8) -> u32 {
    ((r as u32) << 16) | ((g as u32) << 8) | (b as u32)
}

/// The colour with the given red, green and blue.
pub fn rgb(r: u8, g: u8, b: u8) -> (color: u32)
    ensures
        color == packed(r, g, b),
{
    let (r, g, b) = (r as u32, g as u32, b as u32);
    (r << 16) | (g << 8) | b
}

/// What a display shows: `width * height` pixels, row by row, and the
/// colour that clearing fills it with.
pub struct Display {
    buffer: Vec<Color>,
    width: usize,
    height: usize,
    background: Color,
}

/// What a display holds.
pub struct DisplayView {
    pub buffer: Seq<Color>,
    pub width: usize,
    pub height: usize,
    pub background: Color,
}

impl View for Display {
    type V = DisplayView;

    closed spec fn view(&self) -> DisplayView {
        DisplayView {
            buffer: self.buffer@,
            width: self.width,
            height: self.height,
            background: self.background,
        }
    }
}

impl Display {
    #[verifier::type_invariant]
    spec fn inv(self) -> bool {
        self.buffer@.len() == self.width * self.height
    }

    /// A black display on a black background.
    pub fn new(width: usize, height: usize) -> (display: Display)
        requires
            width * height <= usize::MAX,
        ensures
            display@ == (DisplayView {
                buffer: Seq::new((width * height) as nat, |i: int| BLACK),
                width,
                height,
                background: BLACK,
            }),
    {
        let display = Display { buffer: vec![0u32; width * height], width, height, background: BLACK };
        assert(display.buffer@ =~= Seq::new((width * height) as nat, |i: int| BLACK));
        display
    }

    /// Sets the pixel in column `x` of row `y`. A column or a row outside
    /// the display is refused, the column first.
    pub fn draw_pixel(&mut self, x: usize, y: usize, color: Color) -> (result: Result<
        (),
        DrawOutOfBoundsError,
    >)
        ensures
            old(self)@.buffer.len() == old(self)@.width * old(self)@.height,
            if x >= old(self)@.width {
                result == Err::<(), DrawOutOfBoundsError>(DrawOutOfBoundsError::X(x)) && final(self)@
                    == old(self)@
            } else if y >= old(self)@.height {
                result == Err::<(), DrawOutOfBoundsError>(DrawOutOfBoundsError::Y(y)) && final(self)@
                    == old(self)@
            } else {
                result is Ok && final(self)@ == (DisplayView {
                    buffer: old(self)@.buffer.update(y * old(self)@.width + x, color),
                    ..old(self)@
                })
            },
    {
        proof {
            use_type_invariant(&*self);
        }
        if x >= self.width {
            return Err(DrawOutOfBoundsError::X(x));
        }
        if y >= self.height {
            return Err(DrawOutOfBoundsError::Y(y));
        }
        let width = self.width;
        let height = self.height;
        let len = self.buffer.len();
        assert(len == width * height);
        assert(0 <= y * width && y * width + x < width * height) by (nonlinear_arith)
            requires
                0 <= x < width,
                0 <= y < height,
        ;
        let index = (y * width) + x;
        self.buffer[index] = color;
        Ok(())
    }

    /// Fills the display with the background colour.
    pub fn clear(&mut self)
        ensures
            final(self)@ == (DisplayView {
                buffer: Seq::new(old(self)@.buffer.len(), |i: int| old(self)@.background),
                ..old(self)@
            }),
    {
        proof {
            use_type_invariant(&*self);
        }
        let mut i: usize = 0;
        while i < self.buffer.len()
            invariant
                i <= self.buffer@.len(),
                self.buffer@.len() == old(self).buffer@.len(),
                self.buffer@.len() == self.width * self.height,
                self.width == old(self).width,
                self.height == old(self).height,
                self.background == old(self).background,
                forall|k: int| 0 <= k < i ==> self.buffer@[k] == self.background,
            decreases self.buffer@.len() - i,
        {
            self.buffer[i] = self.background;
            i = i + 1;
        }
        assert(self.buffer@ =~= Seq::new(old(self)@.buffer.len(), |i: int| old(self)@.background));
    }

    /// Replaces the pixels by as many others.
    pub fn set_buffer(&mut self, buff: Vec<Color>)
        requires
            buff@.len() == old(self)@.buffer.len(),
        ensures
            final(self)@ == (DisplayView { buffer: buff@, ..old(self)@ }),
    {
        proof {
            use_type_invariant(&*self);
        }
        self.buffer = buff;
    }

    pub fn set_background(&mut self, bg: Color)
        ensures
            final(self)@ == (DisplayView { background: bg, ..old(self)@ }),
    {
        proof {
            use_type_invariant(&*self);
        }
        self.background = bg;
    }

    /// The width and the height.
    pub fn size(&self) -> (size: (usize, usize))
        ensures
            size == (self@.width, self@.height),
    {
        (self.width, self.height)
    }

    /// The pixels, row by row.
    pub fn buffer(&self) -> (buffer: &Vec<Color>)
        ensures
            buffer@ == self@.buffer,
            buffer@.len() == self@.width * self@.height,
    {
        proof {
            use_type_invariant(self);
        }
        &self.buffer
    }
}

} // verus!
