//! The 16-bit register pairs of the CPU.
use vstd::prelude::*;
use crate::bits::{hi, lo, with_hi, with_lo, w8, w16, lemma_bytes};

verus! {

/// A 16-bit register pair; `v` holds both halves, the high byte on top.
pub struct Reg {
    pub v: u16,
}

impl Reg {
    /// Replaces the high byte.
    pub fn set_high(&mut self, v: u8)
        ensures
            final(self).v == with_hi(old(self).v, v),
            hi(final(self).v) == v,
            lo(final(self).v) == lo(old(self).v),
    {
        proof {
            lemma_bytes(self.v, v);
        }
        self.v = ((v as u16) << 8) | (self.v & 0xFF);
    }

    /// Replaces the low byte.
    pub fn set_low(&mut self, v: u8)
        ensures
            final(self).v == with_lo(old(self).v, v),
            hi(final(self).v) == hi(old(self).v),
            lo(final(self).v) == v,
    {
        proof {
            lemma_bytes(self.v, v);
        }
        self.v = (self.v & 0xFF00) | (v as u16);
    }

    pub fn get_high(&self) -> (r: u8)
        ensures
            r == hi(self.v),
    {
        (self.v >> 8) as u8
    }

    pub fn get_low(&self) -> (r: u8)
        ensures
            r == lo(self.v),
    {
        (self.v & 0xFF) as u8
    }

    /// Increments the high byte modulo 256; returns the old and new byte.
    pub fn inc_high(&mut self) -> (r: (u8, u8))
        ensures
            r.0 == hi(old(self).v),
            r.1 == w8(r.0 + 1),
            final(self).v == with_hi(old(self).v, r.1),
            hi(final(self).v) == r.1,
            lo(final(self).v) == lo(old(self).v),
    {
        let o = self.get_high();
        self.set_high(o.wrapping_add(1));
        (o, o.wrapping_add(1))
    }

    /// Increments the low byte modulo 256; returns the old and new byte.
    pub fn inc_low(&mut self) -> (r: (u8, u8))
        ensures
            r.0 == lo(old(self).v),
            r.1 == w8(r.0 + 1),
            final(self).v == with_lo(old(self).v, r.1),
            lo(final(self).v) == r.1,
            hi(final(self).v) == hi(old(self).v),
    {
        let o = self.get_low();
        self.set_low(o.wrapping_add(1));
        (o, o.wrapping_add(1))
    }

    /// Decrements the high byte modulo 256; returns the old and new byte.
    pub fn dec_high(&mut self) -> (r: (u8, u8))
        ensures
            r.0 == hi(old(self).v),
            r.1 == w8(r.0 - 1),
            final(self).v == with_hi(old(self).v, r.1),
            hi(final(self).v) == r.1,
            lo(final(self).v) == lo(old(self).v),
    {
        let o = self.get_high();
        self.set_high(o.wrapping_sub(1));
        (o, o.wrapping_sub(1))
    }

    /// Decrements the low byte modulo 256; returns the old and new byte.
    pub fn dec_low(&mut self) -> (r: (u8, u8))
        ensures
            r.0 == lo(old(self).v),
            r.1 == w8(r.0 - 1),
            final(self).v == with_lo(old(self).v, r.1),
            lo(final(self).v) == r.1,
            hi(final(self).v) == hi(old(self).v),
    {
        let o = self.get_low();
        self.set_low(o.wrapping_sub(1));
        (o, o.wrapping_sub(1))
    }

    /// Adds `v` to the high byte modulo 256; returns the old and new byte.
    pub fn add_high(&mut self, v: u8) -> (r: (u8, u8))
        ensures
            r.0 == hi(old(self).v),
            r.1 == w8(r.0 + v),
            final(self).v == with_hi(old(self).v, r.1),
            hi(final(self).v) == r.1,
            lo(final(self).v) == lo(old(self).v),
    {
        let o = self.get_high();
        self.set_high(o.wrapping_add(v));
        (o, o.wrapping_add(v))
    }

    /// Subtracts `v` from the high byte modulo 256; returns the old and new byte.
    pub fn sub_high(&mut self, v: u8) -> (r: (u8, u8))
        ensures
            r.0 == hi(old(self).v),
            r.1 == w8(r.0 - v),
            final(self).v == with_hi(old(self).v, r.1),
            hi(final(self).v) == r.1,
            lo(final(self).v) == lo(old(self).v),
    {
        let o = self.get_high();
        self.set_high(o.wrapping_sub(v));
        (o, o.wrapping_sub(v))
    }

    /// Adds `v` to the pair modulo 2^16; returns the old and new value.
    pub fn add(&mut self, v: u16) -> (r: (u16, u16))
        ensures
            r.0 == old(self).v,
            r.1 == w16(r.0 + v),
            final(self).v == r.1,
    {
        let o = self.v;
        self.v = o.wrapping_add(v);
        (o, o.wrapping_add(v))
    }

    /// Adds the signed byte `v` to the pair modulo 2^16; returns the old and
    /// new value.
    pub fn addi8(&mut self, v: i8) -> (r: (u16, u16))
        ensures
            r.0 == old(self).v,
            r.1 == w16(r.0 + v),
            final(self).v == r.1,
    {
        let o = self.v;
        let r = o.wrapping_add_signed(v as i16);
        self.v = r;
        (o, r)
    }

    /// The pair as two bytes, low byte first (memory order).
    pub fn to_bytes(&self) -> (r: [u8; 2])
        ensures
            r@ == seq![lo(self.v), hi(self.v)],
    {
        [self.get_low(), self.get_high()]
    }
}

/// The six register pairs of the CPU.
pub struct Regs {
    pub af: Reg,
    pub bc: Reg,
    pub de: Reg,
    pub hl: Reg,
    pub sp: Reg,
    pub pc: Reg,
}

impl Regs {
    /// The register values the boot ROM leaves behind.
    pub fn new() -> (r: Regs)
        ensures
            r.af.v == 0x01B0,
            r.bc.v == 0x0013,
            r.de.v == 0x00D8,
            r.hl.v == 0x014D,
            r.sp.v == 0xFFFE,
            r.pc.v == 0x0100,
    {
        Regs {
            af: Reg { v: 0x01B0 },
            bc: Reg { v: 0x0013 },
            de: Reg { v: 0x00D8 },
            hl: Reg { v: 0x014D },
            sp: Reg { v: 0xFFFE },
            pc: Reg { v: 0x0100 },
        }
    }
}

} // verus!
