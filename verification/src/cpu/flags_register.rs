//! The four CPU condition flags, packed into bits 7..4 of the F register.

use vstd::prelude::*;

verus! {

/// The flags byte: Zero, Subtract, HalfCarry and Carry occupy bits 7, 6,
/// 5 and 4 in that order; bits 3..0 always read as zero.
#[derive(Clone, Copy, PartialEq, Eq, Structural, Debug)]
pub struct FlagsRegister {
    pub zero: bool,
    pub subtract: bool,
    pub half_carry: bool,
    pub carry: bool,
}

/// The byte encoding of a flags value: bit 7 Zero, bit 6 Subtract,
/// bit 5 HalfCarry, bit 4 Carry, low nibble zero.
pub open spec fn spec_flags_to_byte(f: FlagsRegister) -> u8 {
    (if f.zero { 0x80u8 } else { 0u8 }
        | if f.subtract { 0x40u8 } else { 0u8 }
        | if f.half_carry { 0x20u8 } else { 0u8 }
        | if f.carry { 0x10u8 } else { 0u8 }) as u8
}

/// The flags value encoded by a byte; bits 3..0 are ignored.
pub open spec fn spec_flags_from_byte(byte: u8) -> FlagsRegister {
    FlagsRegister {
        zero: byte & 0x80 != 0,
        subtract: byte & 0x40 != 0,
        half_carry: byte & 0x20 != 0,
        carry: byte & 0x10 != 0,
    }
}

impl FlagsRegister {
    pub fn new() -> (r: FlagsRegister)
        ensures
            r == (FlagsRegister { zero: false, subtract: false, half_carry: false, carry: false }),
    {
        FlagsRegister { zero: false, subtract: false, half_carry: false, carry: false }
    }

    pub fn to_byte(&self) -> (r: u8)
        ensures
            r == spec_flags_to_byte(*self),
    {
        (if self.zero { 0x80u8 } else { 0u8 })
            | (if self.subtract { 0x40u8 } else { 0u8 })
            | (if self.half_carry { 0x20u8 } else { 0u8 })
            | (if self.carry { 0x10u8 } else { 0u8 })
    }

    pub fn from_byte(byte: u8) -> (r: FlagsRegister)
        ensures
            r == spec_flags_from_byte(byte),
    {
        FlagsRegister {
            zero: byte & 0x80 != 0,
            subtract: byte & 0x40 != 0,
            half_carry: byte & 0x20 != 0,
            carry: byte & 0x10 != 0,
        }
    }
}

/// Decoding a flags byte and re-encoding it keeps exactly the high
/// nibble: the low nibble always reads back as zero.
pub proof fn lemma_flags_byte_round_trip(byte: u8)
    ensures
        spec_flags_to_byte(spec_flags_from_byte(byte)) == byte & 0xF0,
{
    assert((if byte & 0x80 != 0 { 0x80u8 } else { 0u8 }
        | if byte & 0x40 != 0 { 0x40u8 } else { 0u8 }
        | if byte & 0x20 != 0 { 0x20u8 } else { 0u8 }
        | if byte & 0x10 != 0 { 0x10u8 } else { 0u8 }) == byte & 0xF0) by (bit_vector);
}

} // verus!
