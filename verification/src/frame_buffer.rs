//! A rectangle of packed colours, stored row by row.

use vstd::prelude::*;

verus! {

/// A frame of `width * height` pixels. The pixel at column `x` of row `y`
/// has the index `y * width + x`. A colour is packed as 0xRRGGBB.
pub struct FrameBuffer {
    width: usize,
    height: usize,
    pixels: Vec<u32>,
}

/// What a frame holds.
pub struct FrameBufferView {
    pub width: usize,
    pub height: usize,
    pub pixels: Seq<u32>,
}

impl View for FrameBuffer {
    type V = FrameBufferView;

    closed spec fn view(&self) -> FrameBufferView {
        FrameBufferView { width: self.width, height: self.height, pixels: self.pixels@ }
    }
}

/// The red, green and blue bytes of a frame's pixels, pixel after pixel.
pub open spec fn rgb_bytes(pixels: Seq<u32>) -> Seq<u8> {
    Seq::new(
        3 * pixels.len(),
        |i: int|
            if i % 3 == 0 {
                ((pixels[i / 3] >> 16) & 0xFF) as u8
            } else if i % 3 == 1 {
                ((pixels[i / 3] >> 8) & 0xFF) as u8
            } else {
                (pixels[i / 3] & 0xFF) as u8
            },
    )
}

impl FrameBuffer {
    #[verifier::type_invariant]
    spec fn inv(self) -> bool {
        self.pixels@.len() == self.width * self.height
    }

    /// A frame whose pixels are all 0.
    pub fn new(width: usize, height: usize) -> (frame: FrameBuffer)
        requires
            width * height <= usize::MAX,
        ensures
            frame@ == (FrameBufferView {
                width,
                height,
                pixels: Seq::new((width * height) as nat, |i: int| 0u32),
            }),
    {
        let frame = FrameBuffer { width, height, pixels: vec![0u32; width * height] };
        assert(frame.pixels@ =~= Seq::new((width * height) as nat, |i: int| 0u32));
        frame
    }

    /// Sets the pixel with the given index. An index outside the frame is
    /// ignored.
    pub fn write(&mut self, index: usize, color: u32)
        ensures
            old(self)@.pixels.len() == old(self)@.width * old(self)@.height,
            final(self)@ == (FrameBufferView {
                pixels: if index < old(self)@.pixels.len() {
                    old(self)@.pixels.update(index as int, color)
                } else {
                    old(self)@.pixels
                },
                ..old(self)@
            }),
    {
        proof {
            use_type_invariant(&*self);
        }
        if index < self.pixels.len() {
            self.pixels[index] = color;
        }
    }

    pub fn width(&self) -> (width: usize)
        ensures
            width == self@.width,
    {
        self.width
    }

    pub fn height(&self) -> (height: usize)
        ensures
            height == self@.height,
    {
        self.height
    }

    /// The pixels, row by row.
    pub fn pixels(&self) -> (pixels: &Vec<u32>)
        ensures
            pixels@ == self@.pixels,
            pixels@.len() == self@.width * self@.height,
    {
        proof {
            use_type_invariant(self);
        }
        &self.pixels
    }

    /// The pixels as red, green and blue bytes.
    pub fn rgb(&self) -> (bytes: Vec<u8>)
        ensures
            bytes@ == rgb_bytes(self@.pixels),
    {
        let mut bytes: Vec<u8> = Vec::new();
        let mut i: usize = 0;
        while i < self.pixels.len()
            invariant
                i <= self.pixels@.len(),
                bytes@.len() == 3 * i,
                forall|k: int| 0 <= k < 3 * i ==> bytes@[k] == rgb_bytes(self.pixels@)[k],
            decreases self.pixels@.len() - i,
        {
            let color = self.pixels[i];
            bytes.push(((color >> 16) & 0xFF) as u8);
            bytes.push(((color >> 8) & 0xFF) as u8);
            bytes.push((color & 0xFF) as u8);
            i = i + 1;
        }
        assert(bytes@ =~= rgb_bytes(self.pixels@));
        bytes
    }
}

} // verus!
