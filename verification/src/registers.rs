//! The register file: eight 8-bit registers, their 16-bit pairings and the
//! four flags held in the high nibble of `f`.

use vstd::prelude::*;
use crate::bit_ops::{bit_of, with_bit, BitOps};

verus! {

/// Bit position of the zero flag in `f`.
pub const Z_BIT: u8 = 7;
/// Bit position of the subtract flag in `f`.
pub const N_BIT: u8 = 6;
/// Bit position of the half-carry flag in `f`.
pub const H_BIT: u8 = 5;
/// Bit position of the carry flag in `f`.
pub const C_BIT: u8 = 4;

/// The 16-bit value whose high byte is `hi` and whose low byte is `lo`.
pub open spec fn pair(hi: u8, lo: u8) -> u16 {
    ((hi as u16) << 8) | (lo as u16)
}

/// The high byte of a 16-bit value.
pub open spec fn high_byte(value: u16) -> u8 {
    ((value & 0xFF00) >> 8) as u8
}

/// The low byte of a 16-bit value.
pub open spec fn low_byte(value: u16) -> u8 {
    (value & 0xFF) as u8
}

/// The eight 8-bit registers. `f` holds the flags: zero in bit 7,
/// subtract in bit 6, half-carry in bit 5, carry in bit 4.
#[derive(Clone, Copy, Debug, PartialEq, Eq, Structural)]
pub struct Registers {
    pub a: u8,
    pub b: u8,
    pub c: u8,
    pub d: u8,
    pub e: u8,
    pub f: u8,
    pub h: u8,
    pub l: u8,
}

impl Registers {
    /// The low nibble of `f` holds no stray bits.
    pub open spec fn wf(self) -> bool {
        self.f & 0x0F == 0
    }

    /// Whether flag bit `bit` of `f` is set.
    pub open spec fn flag(self, bit: u8) -> bool {
        bit_of(self.f, bit) == 1
    }

    /// These registers with flag bit `bit` of `f` forced to `on`.
    pub open spec fn with_flag(self, bit: u8, on: bool) -> Registers {
        Registers { f: with_bit(self.f, bit, on), ..self }
    }

    /// These registers with flag bit `bit` forced to `on`, or unchanged
    /// where `on` is `None`.
    pub open spec fn with_optional_flag(self, bit: u8, on: Option<bool>) -> Registers {
        match on {
            Some(on) => self.with_flag(bit, on),
            None => self,
        }
    }

    /// These registers with each of the four flags forced to what is
    /// given for it, or unchanged where `None` is given.
    pub open spec fn with_flags(
        self,
        z: Option<bool>,
        n: Option<bool>,
        h: Option<bool>,
        c: Option<bool>,
    ) -> Registers {
        self.with_optional_flag(Z_BIT, z).with_optional_flag(N_BIT, n).with_optional_flag(
            H_BIT,
            h,
        ).with_optional_flag(C_BIT, c)
    }

    /// The register file with 0 in every register.
    pub open spec fn zeroed() -> Registers {
        Registers { a: 0, b: 0, c: 0, d: 0, e: 0, f: 0, h: 0, l: 0 }
    }

    pub fn new() -> (regs: Registers)
        ensures
            regs == Registers::zeroed(),
    {
        Registers { a: 0, b: 0, c: 0, d: 0, e: 0, f: 0, h: 0, l: 0 }
    }

    pub fn af(&self) -> (value: u16)
        ensures
            value == pair(self.a, self.f),
    {
        ((self.a as u16) << 8) | (self.f as u16)
    }

    pub fn set_af(&mut self, value: u16)
        ensures
            *final(self) == (Registers {
                a: high_byte(value),
                f: (value & 0xF0) as u8,
                ..*old(self)
            }),
    {
        self.a = ((value & 0xFF00) >> 8) as u8;
        self.f = (value & 0xF0) as u8;
    }

    pub fn bc(&self) -> (value: u16)
        ensures
            value == pair(self.b, self.c),
    {
        ((self.b as u16) << 8) | (self.c as u16)
    }

    pub fn set_bc(&mut self, value: u16)
        ensures
            *final(self) == (Registers {
                b: high_byte(value),
                c: low_byte(value),
                ..*old(self)
            }),
    {
        self.b = ((value & 0xFF00) >> 8) as u8;
        self.c = (value & 0xFF) as u8;
    }

    pub fn de(&self) -> (value: u16)
        ensures
            value == pair(self.d, self.e),
    {
        ((self.d as u16) << 8) | (self.e as u16)
    }

    pub fn set_de(&mut self, value: u16)
        ensures
            *final(self) == (Registers {
                d: high_byte(value),
                e: low_byte(value),
                ..*old(self)
            }),
    {
        self.d = ((value & 0xFF00) >> 8) as u8;
        self.e = (value & 0xFF) as u8;
    }

    pub fn hl(&self) -> (value: u16)
        ensures
            value == pair(self.h, self.l),
    {
        ((self.h as u16) << 8) | (self.l as u16)
    }

    pub fn set_hl(&mut self, value: u16)
        ensures
            *final(self) == (Registers {
                h: high_byte(value),
                l: low_byte(value),
                ..*old(self)
            }),
    {
        self.h = ((value & 0xFF00) >> 8) as u8;
        self.l = (value & 0xFF) as u8;
    }

    pub fn set_z_flag(&mut self)
        ensures
            *final(self) == old(self).with_flag(Z_BIT, true),
    {
        self.f.set_bit(Z_BIT);
    }

    pub fn clear_z_flag(&mut self)
        ensures
            *final(self) == old(self).with_flag(Z_BIT, false),
    {
        self.f.clear_bit(Z_BIT);
    }

    /// The zero flag as 0 or 1.
    pub fn get_z_flag(&self) -> (value: u8)
        ensures
            value == bit_of(self.f, Z_BIT),
            value == 0 || value == 1,
    {
        self.f.get_bit(Z_BIT)
    }

    /// Whether the zero flag is set.
    pub fn check_z_flag(&self) -> (set: bool)
        ensures
            set == self.flag(Z_BIT),
    {
        self.f.get_bit(Z_BIT) == 1
    }

    pub fn set_n_flag(&mut self)
        ensures
            *final(self) == old(self).with_flag(N_BIT, true),
    {
        self.f.set_bit(N_BIT);
    }

    pub fn clear_n_flag(&mut self)
        ensures
            *final(self) == old(self).with_flag(N_BIT, false),
    {
        self.f.clear_bit(N_BIT);
    }

    /// The subtract flag as 0 or 1.
    pub fn get_n_flag(&self) -> (value: u8)
        ensures
            value == bit_of(self.f, N_BIT),
            value == 0 || value == 1,
    {
        self.f.get_bit(N_BIT)
    }

    /// Whether the subtract flag is set.
    pub fn check_n_flag(&self) -> (set: bool)
        ensures
            set == self.flag(N_BIT),
    {
        self.f.get_bit(N_BIT) == 1
    }

    pub fn set_h_flag(&mut self)
        ensures
            *final(self) == old(self).with_flag(H_BIT, true),
    {
        self.f.set_bit(H_BIT);
    }

    pub fn clear_h_flag(&mut self)
        ensures
            *final(self) == old(self).with_flag(H_BIT, false),
    {
        self.f.clear_bit(H_BIT);
    }

    /// The half-carry flag as 0 or 1.
    pub fn get_h_flag(&self) -> (value: u8)
        ensures
            value == bit_of(self.f, H_BIT),
            value == 0 || value == 1,
    {
        self.f.get_bit(H_BIT)
    }

    /// Whether the half-carry flag is set.
    pub fn check_h_flag(&self) -> (set: bool)
        ensures
            set == self.flag(H_BIT),
    {
        self.f.get_bit(H_BIT) == 1
    }

    pub fn set_c_flag(&mut self)
        ensures
            *final(self) == old(self).with_flag(C_BIT, true),
    {
        self.f.set_bit(C_BIT);
    }

    pub fn clear_c_flag(&mut self)
        ensures
            *final(self) == old(self).with_flag(C_BIT, false),
    {
        self.f.clear_bit(C_BIT);
    }

    /// The carry flag as 0 or 1.
    pub fn get_c_flag(&self) -> (value: u8)
        ensures
            value == bit_of(self.f, C_BIT),
            value == 0 || value == 1,
    {
        self.f.get_bit(C_BIT)
    }

    /// Whether the carry flag is set.
    pub fn check_c_flag(&self) -> (set: bool)
        ensures
            set == self.flag(C_BIT),
    {
        self.f.get_bit(C_BIT) == 1
    }
}

} // verus!
