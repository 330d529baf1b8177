//! CPU register file: eight 8-bit registers, the four condition flags and
//! the 16-bit pair views.
//!
//! The flag byte `F` keeps its four meaningful bits in the high nibble;
//! storing the flags as four booleans makes the low nibble of every packed
//! `F` byte zero by construction.

use vstd::prelude::*;

verus! {

/// The four condition flags of the flag register `F`, highest bit first:
/// zero, subtract, half-carry, carry.
#[derive(Clone, Copy, PartialEq, Eq, Structural, Debug)]
pub struct Flags {
    pub zero: bool,
    pub subtract: bool,
    pub half_carry: bool,
    pub carry: bool,
}

impl Flags {
    /// The packed byte value of the flags: `Z N H C` in bits 7..4, low nibble zero.
    pub open spec fn spec_to_byte(self) -> u8 {
        (if self.zero { 0x80u8 } else { 0u8 })
            | (if self.subtract { 0x40u8 } else { 0u8 })
            | (if self.half_carry { 0x20u8 } else { 0u8 })
            | (if self.carry { 0x10u8 } else { 0u8 })
    }

    /// The flags encoded by a byte: bits 7..4; the low nibble is ignored.
    pub open spec fn spec_from_byte(b: u8) -> Flags {
        Flags {
            zero: b & 0x80 != 0,
            subtract: b & 0x40 != 0,
            half_carry: b & 0x20 != 0,
            carry: b & 0x10 != 0,
        }
    }

    pub fn to_byte(&self) -> (r: u8)
        ensures
            r == self.spec_to_byte(),
    {
        (if self.zero { 0x80u8 } else { 0u8 })
            | (if self.subtract { 0x40u8 } else { 0u8 })
            | (if self.half_carry { 0x20u8 } else { 0u8 })
            | (if self.carry { 0x10u8 } else { 0u8 })
    }

    pub fn from_byte(b: u8) -> (r: Flags)
        ensures
            r == Flags::spec_from_byte(b),
    {
        Flags {
            zero: b & 0x80 != 0,
            subtract: b & 0x40 != 0,
            half_carry: b & 0x20 != 0,
            carry: b & 0x10 != 0,
        }
    }
}

/// Packing the flags always leaves the low nibble of `F` zero, so every
/// value the register file exposes for `F` has a zero low nibble.
pub proof fn lemma_flags_low_nibble_zero(f: Flags)
    ensures
        f.spec_to_byte() & 0x0F == 0,
{
    let z: u8 = if f.zero { 0x80u8 } else { 0u8 };
    let n: u8 = if f.subtract { 0x40u8 } else { 0u8 };
    let h: u8 = if f.half_carry { 0x20u8 } else { 0u8 };
    let c: u8 = if f.carry { 0x10u8 } else { 0u8 };
    assert((z | n | h | c) & 0x0F == 0) by (bit_vector)
        requires
            z == 0x80 || z == 0,
            n == 0x40 || n == 0,
            h == 0x20 || h == 0,
            c == 0x10 || c == 0,
    ;
}

/// Unpacking a packed flag byte restores the flags exactly.
pub proof fn lemma_flags_roundtrip(f: Flags)
    ensures
        Flags::spec_from_byte(f.spec_to_byte()) == f,
{
    let z: u8 = if f.zero { 0x80u8 } else { 0u8 };
    let n: u8 = if f.subtract { 0x40u8 } else { 0u8 };
    let h: u8 = if f.half_carry { 0x20u8 } else { 0u8 };
    let c: u8 = if f.carry { 0x10u8 } else { 0u8 };
    let b: u8 = z | n | h | c;
    assert((b & 0x80 != 0) == (z == 0x80) && (b & 0x40 != 0) == (n == 0x40)
        && (b & 0x20 != 0) == (h == 0x20) && (b & 0x10 != 0) == (c == 0x10)) by (bit_vector)
        requires
            b == z | n | h | c,
            z == 0x80 || z == 0,
            n == 0x40 || n == 0,
            h == 0x20 || h == 0,
            c == 0x10 || c == 0,
    ;
}

/// The eight 8-bit registers; `F` is kept as unpacked [`Flags`].
#[derive(Clone, Copy, PartialEq, Eq, Structural, Debug)]
pub struct Registers {
    pub a: u8,
    pub b: u8,
    pub c: u8,
    pub d: u8,
    pub e: u8,
    pub f: Flags,
    pub h: u8,
    pub l: u8,
}

/// The 16-bit value formed by a high and a low byte.
pub open spec fn spec_pair(hi: u8, lo: u8) -> u16 {
    (hi as u16) << 8 | lo as u16
}

impl Registers {
    /// Register file at power-on: everything zero, flags clear.
    pub fn new() -> (r: Registers)
        ensures
            r == (Registers {
                a: 0u8, b: 0u8, c: 0u8, d: 0u8, e: 0u8,
                f: Flags { zero: false, subtract: false, half_carry: false, carry: false },
                h: 0u8, l: 0u8,
            }),
    {
        Registers {
            a: 0,
            b: 0,
            c: 0,
            d: 0,
            e: 0,
            f: Flags { zero: false, subtract: false, half_carry: false, carry: false },
            h: 0,
            l: 0,
        }
    }

    pub open spec fn spec_af(self) -> u16 {
        spec_pair(self.a, self.f.spec_to_byte())
    }

    pub open spec fn spec_bc(self) -> u16 {
        spec_pair(self.b, self.c)
    }

    pub open spec fn spec_de(self) -> u16 {
        spec_pair(self.d, self.e)
    }

    pub open spec fn spec_hl(self) -> u16 {
        spec_pair(self.h, self.l)
    }

    pub fn get_af(&self) -> (r: u16)
        ensures
            r == self.spec_af(),
    {
        (self.a as u16) << 8 | self.f.to_byte() as u16
    }

    pub fn get_bc(&self) -> (r: u16)
        ensures
            r == self.spec_bc(),
    {
        (self.b as u16) << 8 | self.c as u16
    }

    pub fn get_de(&self) -> (r: u16)
        ensures
            r == self.spec_de(),
    {
        (self.d as u16) << 8 | self.e as u16
    }

    pub fn get_hl(&self) -> (r: u16)
        ensures
            r == self.spec_hl(),
    {
        (self.h as u16) << 8 | self.l as u16
    }

    /// `HL+` view: hand out the current `HL`, then post-increment it.
    pub fn get_hlp(&mut self) -> (r: u16)
        ensures
            r == old(self).spec_hl(),
            *final(self) == old(self).spec_set_hl(old(self).spec_hl().wrapping_add(1)),
    {
        let hl = self.get_hl();
        self.set_hl(hl.wrapping_add(1));
        hl
    }

    /// `HL-` view: hand out the current `HL`, then post-decrement it.
    pub fn get_hlm(&mut self) -> (r: u16)
        ensures
            r == old(self).spec_hl(),
            *final(self) == old(self).spec_set_hl(old(self).spec_hl().wrapping_sub(1)),
    {
        let hl = self.get_hl();
        self.set_hl(hl.wrapping_sub(1));
        hl
    }

    /// Writing `AF` masks the low nibble of `F` to zero, because only the
    /// four flag bits are kept.
    pub open spec fn spec_set_af(self, v: u16) -> Registers {
        Registers { a: (v >> 8) as u8, f: Flags::spec_from_byte(v as u8), ..self }
    }

    pub open spec fn spec_set_bc(self, v: u16) -> Registers {
        Registers { b: (v >> 8) as u8, c: v as u8, ..self }
    }

    pub open spec fn spec_set_de(self, v: u16) -> Registers {
        Registers { d: (v >> 8) as u8, e: v as u8, ..self }
    }

    pub open spec fn spec_set_hl(self, v: u16) -> Registers {
        Registers { h: (v >> 8) as u8, l: v as u8, ..self }
    }

    pub fn set_af(&mut self, v: u16)
        ensures
            *final(self) == old(self).spec_set_af(v),
    {
        self.a = (v >> 8) as u8;
        self.f = Flags::from_byte(v as u8);
    }

    pub fn set_bc(&mut self, v: u16)
        ensures
            *final(self) == old(self).spec_set_bc(v),
    {
        self.b = (v >> 8) as u8;
        self.c = v as u8;
    }

    pub fn set_de(&mut self, v: u16)
        ensures
            *final(self) == old(self).spec_set_de(v),
    {
        self.d = (v >> 8) as u8;
        self.e = v as u8;
    }

    pub fn set_hl(&mut self, v: u16)
        ensures
            *final(self) == old(self).spec_set_hl(v),
    {
        self.h = (v >> 8) as u8;
        self.l = v as u8;
    }
}

/// Pairing a high and a low byte and splitting the pair again restores both
/// bytes; writing a pair register therefore stores exactly the two halves.
pub proof fn lemma_pair_split(hi: u8, lo: u8)
    ensures
        (spec_pair(hi, lo) >> 8) as u8 == hi,
        spec_pair(hi, lo) as u8 == lo,
{
    assert((((hi as u16) << 8 | lo as u16) >> 8) as u8 == hi
        && ((hi as u16) << 8 | lo as u16) as u8 == lo) by (bit_vector);
}

} // verus!
