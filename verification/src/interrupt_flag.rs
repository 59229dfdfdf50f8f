//! One 5-bit interrupt flag set over the five interrupt sources.
//!
//! The same structure serves both as the pending set ("IF") and the
//! enabled set ("IE"). The unused high bits of the underlying byte are
//! preserved verbatim across writes and reads, not forced to fixed
//! values.

use vstd::prelude::*;

verus! {

/// Five interrupt source bits plus the byte's untouched high nibble.
/// Bit 0 video-blank, bit 1 display-status, bit 2 timer, bit 3 serial,
/// bit 4 input.
#[derive(Clone, Copy, PartialEq, Eq, Structural, Debug)]
pub struct InterruptFlag {
    pub vblank: bool,
    pub stat: bool,
    pub timer: bool,
    pub serial: bool,
    pub joypad: bool,
    pub rest: u8,
}

/// The byte encoding of a flag set: the five source bits in bits 4..0
/// or-ed with the preserved high nibble.
pub open spec fn spec_if_to_byte(f: InterruptFlag) -> u8 {
    (f.rest
        | if f.joypad { 0x10u8 } else { 0u8 }
        | if f.serial { 0x08u8 } else { 0u8 }
        | if f.timer { 0x04u8 } else { 0u8 }
        | if f.vblank { 0x01u8 } else { 0u8 }
        | if f.stat { 0x02u8 } else { 0u8 }) as u8
}

/// The flag set encoded by a byte; the high nibble is carried over
/// verbatim.
pub open spec fn spec_if_from_byte(byte: u8) -> InterruptFlag {
    InterruptFlag {
        vblank: byte & 0x01 != 0,
        stat: byte & 0x02 != 0,
        timer: byte & 0x04 != 0,
        serial: byte & 0x08 != 0,
        joypad: byte & 0x10 != 0,
        rest: byte & 0xF0,
    }
}

/// A fresh flag set: no source pending, high nibble reading as set
/// (the hardware's open bits).
pub open spec fn spec_if_new() -> InterruptFlag {
    InterruptFlag {
        vblank: false,
        stat: false,
        timer: false,
        serial: false,
        joypad: false,
        rest: 0xF0,
    }
}

impl InterruptFlag {
    /// A fresh flag set: no source pending, high nibble reading as set
    /// (the hardware's open bits).
    pub fn new() -> (r: InterruptFlag)
        ensures
            r == spec_if_new(),
            r == (InterruptFlag {
                vblank: false,
                stat: false,
                timer: false,
                serial: false,
                joypad: false,
                rest: 0xF0,
            }),
    {
        InterruptFlag {
            vblank: false,
            stat: false,
            timer: false,
            serial: false,
            joypad: false,
            rest: 0xF0,
        }
    }

    /// Replace the whole flag set with the one a byte encodes.
    pub fn from_byte(&mut self, byte: u8)
        ensures
            *final(self) == spec_if_from_byte(byte),
    {
        self.vblank = byte & 0x01 != 0;
        self.stat = byte & 0x02 != 0;
        self.timer = byte & 0x04 != 0;
        self.serial = byte & 0x08 != 0;
        self.joypad = byte & 0x10 != 0;
        self.rest = byte & 0xF0;
    }

    pub fn to_byte(&self) -> (r: u8)
        ensures
            r == spec_if_to_byte(*self),
    {
        self.rest
            | (if self.joypad { 0x10u8 } else { 0u8 })
            | (if self.serial { 0x08u8 } else { 0u8 })
            | (if self.timer { 0x04u8 } else { 0u8 })
            | (if self.vblank { 0x01u8 } else { 0u8 })
            | (if self.stat { 0x02u8 } else { 0u8 })
    }
}

/// Writing a byte into a flag set and reading it back yields the byte
/// unchanged: the five source bits and the high nibble all round-trip.
pub proof fn lemma_if_byte_round_trip(byte: u8)
    ensures
        spec_if_to_byte(spec_if_from_byte(byte)) == byte,
{
    assert(((byte & 0xF0)
        | if byte & 0x10 != 0 { 0x10u8 } else { 0u8 }
        | if byte & 0x08 != 0 { 0x08u8 } else { 0u8 }
        | if byte & 0x04 != 0 { 0x04u8 } else { 0u8 }
        | if byte & 0x01 != 0 { 0x01u8 } else { 0u8 }
        | if byte & 0x02 != 0 { 0x02u8 } else { 0u8 }) == byte) by (bit_vector);
}

} // verus!
