//! The register file: eight 8-bit registers addressable singly or as
//! 16-bit pairs, plus the flags byte.

use vstd::prelude::*;
use crate::cpu::flags_register::FlagsRegister;
use crate::cpu::flags_register::spec_flags_from_byte;
use crate::cpu::flags_register::spec_flags_to_byte;

verus! {

/// Composition of a 16-bit pair from its high and low bytes.
pub open spec fn spec_word(hi: u8, lo: u8) -> u16 {
    (hi * 256 + lo) as u16
}

/// A, B, C, D, E, H, L and the flags byte F. BC, DE and HL pair the
/// named registers big-endian (high byte first); AF pairs A with F.
#[derive(Clone, Copy, PartialEq, Eq, Structural, Debug)]
pub struct Registers {
    pub a: u8,
    pub b: u8,
    pub c: u8,
    pub d: u8,
    pub e: u8,
    pub h: u8,
    pub l: u8,
    pub f: FlagsRegister,
}

impl Registers {
    pub fn new() -> (r: Registers)
        ensures
            r.a == 0 && r.b == 0 && r.c == 0 && r.d == 0 && r.e == 0 && r.h == 0 && r.l == 0,
            r.f == (FlagsRegister { zero: false, subtract: false, half_carry: false, carry: false }),
    {
        Registers {
            a: 0,
            b: 0,
            c: 0,
            d: 0,
            e: 0,
            h: 0,
            l: 0,
            f: FlagsRegister::new(),
        }
    }

    pub open spec fn spec_bc(&self) -> u16 {
        spec_word(self.b, self.c)
    }

    pub open spec fn spec_de(&self) -> u16 {
        spec_word(self.d, self.e)
    }

    pub open spec fn spec_hl(&self) -> u16 {
        spec_word(self.h, self.l)
    }

    pub open spec fn spec_af(&self) -> u16 {
        spec_word(self.a, spec_flags_to_byte(self.f))
    }

    pub fn get_bc(&self) -> (r: u16)
        ensures
            r == self.spec_bc(),
    {
        proof {
            lemma_word_from_bytes(self.b, self.c);
        }
        ((self.b as u16) << 8) | (self.c as u16)
    }

    pub fn set_bc(&mut self, value: u16)
        ensures
            final(self).b == value >> 8,
            final(self).c == value & 0xFF,
            final(self).spec_bc() == value,
            *final(self) == (Registers { b: (value >> 8) as u8, c: (value & 0xFF) as u8, ..*old(self) }),
    {
        self.b = (value >> 8) as u8;
        self.c = (value & 0xFF) as u8;
        proof {
            lemma_word_decompose(value);
        }
    }

    pub fn get_de(&self) -> (r: u16)
        ensures
            r == self.spec_de(),
    {
        proof {
            lemma_word_from_bytes(self.d, self.e);
        }
        ((self.d as u16) << 8) | (self.e as u16)
    }

    pub fn set_de(&mut self, value: u16)
        ensures
            final(self).d == value >> 8,
            final(self).e == value & 0xFF,
            final(self).spec_de() == value,
            *final(self) == (Registers { d: (value >> 8) as u8, e: (value & 0xFF) as u8, ..*old(self) }),
    {
        self.d = (value >> 8) as u8;
        self.e = (value & 0xFF) as u8;
        proof {
            lemma_word_decompose(value);
        }
    }

    pub fn get_hl(&self) -> (r: u16)
        ensures
            r == self.spec_hl(),
    {
        proof {
            lemma_word_from_bytes(self.h, self.l);
        }
        ((self.h as u16) << 8) | (self.l as u16)
    }

    pub fn set_hl(&mut self, value: u16)
        ensures
            final(self).h == value >> 8,
            final(self).l == value & 0xFF,
            final(self).spec_hl() == value,
            *final(self) == (Registers { h: (value >> 8) as u8, l: (value & 0xFF) as u8, ..*old(self) }),
    {
        self.h = (value >> 8) as u8;
        self.l = (value & 0xFF) as u8;
        proof {
            lemma_word_decompose(value);
        }
    }

    pub fn get_af(&self) -> (r: u16)
        ensures
            r == self.spec_af(),
    {
        let fb = self.f.to_byte();
        proof {
            lemma_word_from_bytes(self.a, fb);
        }
        ((self.a as u16) << 8) | (fb as u16)
    }

    /// Setting AF decodes the low byte into the four flags; the byte's
    /// low nibble is discarded, so F always reads back with a zero low
    /// nibble.
    pub fn set_af(&mut self, value: u16)
        ensures
            final(self).a == value >> 8,
            final(self).f == spec_flags_from_byte((value & 0xFF) as u8),
            *final(self) == (Registers {
                a: (value >> 8) as u8,
                f: spec_flags_from_byte((value & 0xFF) as u8),
                ..*old(self)
            }),
    {
        proof {
            lemma_word_decompose(value);
        }
        self.a = (value >> 8) as u8;
        self.f = FlagsRegister::from_byte((value & 0xFF) as u8);
    }
}

/// Shifting a byte into the high half and or-ing in a low byte forms
/// the pair value.
pub proof fn lemma_word_from_bytes(hi: u8, lo: u8)
    ensures
        ((hi as u16) << 8) | (lo as u16) == spec_word(hi, lo),
{
    assert(((hi as u16) << 8) | (lo as u16) == (hi * 256 + lo) as u16) by (bit_vector);
}

/// The AF pair always reads with a zero low nibble: the flags byte
/// keeps bits 3..0 clear, so no value loaded into AF can surface
/// there.
pub proof fn lemma_af_low_nibble_zero(regs: Registers)
    ensures
        regs.spec_af() & 0xF == 0,
{
    let z = regs.f.zero;
    let n = regs.f.subtract;
    let h = regs.f.half_carry;
    let cy = regs.f.carry;
    let a = regs.a;
    let fb = spec_flags_to_byte(regs.f);
    assert(((if z { 0x80u8 } else { 0u8 }
        | if n { 0x40u8 } else { 0u8 }
        | if h { 0x20u8 } else { 0u8 }
        | if cy { 0x10u8 } else { 0u8 }) & 0xF) == 0) by (bit_vector);
    assert(fb & 0xF == 0 ==> ((a * 256 + fb) as u16) & 0xF == 0) by (bit_vector);
}

/// A 16-bit value equals its high byte times 256 plus its low byte.
pub proof fn lemma_word_decompose(value: u16)
    ensures
        spec_word((value >> 8) as u8, (value & 0xFF) as u8) == value,
        (value >> 8) < 256,
        value & 0xFF < 256,
{
    assert(((value >> 8) as u8) * 256 + ((value & 0xFF) as u8) == value && (value >> 8) < 256
        && value & 0xFF < 256) by (bit_vector);
}

} // verus!
