//! A ROM image as it comes from a file.

use vstd::prelude::*;

verus! {

/// The position of the colour flag in the header of an image.
pub const COLOR_FLAG: usize = 0x143;

/// A ROM image.
pub struct Rom {
    bytes: Vec<u8>,
    gb_compatible: bool,
}

/// What a ROM image holds.
pub struct RomView {
    pub bytes: Seq<u8>,
    pub gb_compatible: bool,
}

impl View for Rom {
    type V = RomView;

    closed spec fn view(&self) -> RomView {
        RomView { bytes: self.bytes@, gb_compatible: self.gb_compatible }
    }
}

impl Rom {
    /// Takes an image that reaches to its colour flag; the image counts
    /// as compatible where the flag is 0x80.
    pub fn from(bytes: Vec<u8>) -> (rom: Option<Rom>)
        ensures
            match rom {
                Some(rom) => bytes@.len() > COLOR_FLAG && rom@ == (RomView {
                    bytes: bytes@,
                    gb_compatible: bytes@[COLOR_FLAG as int] == 0x80,
                }),
                None => bytes@.len() <= COLOR_FLAG,
            },
    {
        if bytes.len() <= COLOR_FLAG {
            return None;
        }
        let gb_compatible = bytes[COLOR_FLAG] == 0x80;
        Some(Rom { bytes, gb_compatible })
    }

    /// A copy of the image.
    pub fn bytes(&self) -> (bytes: Vec<u8>)
        ensures
            bytes@ == self@.bytes,
    {
        self.bytes.clone()
    }

    pub fn gb_compatible(&self) -> (compatible: bool)
        ensures
            compatible == self@.gb_compatible,
    {
        self.gb_compatible
    }
}

} // verus!
