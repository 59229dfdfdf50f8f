//! The pixel-processing stub: keeps a tile cache over a private copy
//! of video RAM, rendering nothing. Opening a display window is left
//! to the surrounding program; this component holds only the data.

use vstd::prelude::*;
use crate::gpu::Tile;
use crate::gpu::TilePixelValue;
use crate::gpu::empty_tile;
use crate::memory_bus::VRAM_SIZE;

verus! {

/// The colour value two tile-data bytes encode for pixel `i` of a row:
/// bit `7 - i` of the first byte is the low bit, the same bit of the
/// second byte the high bit.
pub open spec fn spec_pixel_value(byte1: u8, byte2: u8, i: int) -> TilePixelValue {
    let mask = 1u8 << ((7 - i) as u8);
    if byte1 & mask != 0 {
        if byte2 & mask != 0 {
            TilePixelValue::Three
        } else {
            TilePixelValue::One
        }
    } else {
        if byte2 & mask != 0 {
            TilePixelValue::Two
        } else {
            TilePixelValue::Zero
        }
    }
}

/// Video RAM copy plus the tile cache rebuilt from it on writes.
pub struct PPU {
    pub vram: Vec<u8>,
    pub tile_set: Vec<Tile>,
}

impl PPU {
    /// Structural well-formedness: the RAM copy spans the full region
    /// and the cache holds 384 8-by-8 tiles.
    pub open spec fn wf(&self) -> bool {
        &&& self.vram@.len() == VRAM_SIZE
        &&& self.tile_set@.len() == 384
        &&& forall|t: int| 0 <= t < 384 ==> (#[trigger] self.tile_set@[t])@.len() == 8
        &&& forall|t: int, i: int|
            0 <= t < 384 && 0 <= i < 8 ==> (#[trigger] self.tile_set@[t]@[i])@.len() == 8
    }

    /// A fresh stub: zeroed RAM copy, blank tiles.
    pub fn new() -> (r: PPU)
        ensures
            r.wf(),
            forall|i: int| 0 <= i < VRAM_SIZE ==> (#[trigger] r.vram@[i]) == 0,
    {
        let mut vram: Vec<u8> = Vec::new();
        let mut i: usize = 0;
        while i < VRAM_SIZE
            invariant
                i <= VRAM_SIZE,
                vram@.len() == i,
                forall|k: int| 0 <= k < i ==> (#[trigger] vram@[k]) == 0,
            decreases VRAM_SIZE - i,
        {
            vram.push(0);
            i += 1;
        }
        let mut tile_set: Vec<Tile> = Vec::new();
        let mut t: usize = 0;
        while t < 384
            invariant
                t <= 384,
                tile_set@.len() == t,
                forall|k: int| 0 <= k < t ==> (#[trigger] tile_set@[k])@.len() == 8,
                forall|k: int, i2: int|
                    0 <= k < t && 0 <= i2 < 8 ==> (#[trigger] tile_set@[k]@[i2])@.len() == 8,
            decreases 384 - t,
        {
            tile_set.push(empty_tile());
            t += 1;
        }
        PPU { vram, tile_set }
    }

    /// One display tick. Rendering is out of scope, so nothing
    /// happens.
    pub fn tick(&self) {
    }

    /// The byte stored at an offset of the RAM copy.
    pub fn read_vram(&self, address: usize) -> (r: u8)
        requires
            self.wf(),
            address < VRAM_SIZE,
        ensures
            r == self.vram@[address as int],
    {
        self.vram[address]
    }

    /// Rebuild the cached tile row that an offset in the tile-data
    /// area belongs to, from the two row bytes currently in the RAM
    /// copy; offsets past the tile-data area are ignored. The RAM copy
    /// itself is not changed.
    pub fn write_vram(&mut self, address: usize, value: u8)
        requires
            old(self).wf(),
        ensures
            final(self).wf(),
            final(self).vram == old(self).vram,
            address >= 0x1800 ==> *final(self) == *old(self),
            address < 0x1800 ==> {
                let normalised = (address & 0xFFEF) as int;
                let byte1 = old(self).vram@[normalised];
                let byte2 = old(self).vram@[normalised + 1];
                let tile = address as int / 16;
                let row = (address as int % 16) / 2;
                &&& forall|t: int|
                    0 <= t < 384 && t != tile ==> (#[trigger] final(self).tile_set@[t]) == old(
                        self,
                    ).tile_set@[t]
                &&& forall|i: int|
                    0 <= i < 8 && i != row ==> (#[trigger] final(self).tile_set@[tile]@[i]) == old(
                        self,
                    ).tile_set@[tile]@[i]
                &&& forall|p: int|
                    0 <= p < 8 ==> (#[trigger] final(self).tile_set@[tile]@[row]@[p])
                        == spec_pixel_value(byte1, byte2, p)
            },
    {
        let _ = value;
        if address >= 0x1800 {
            return ;
        }
        let normalised = address & 0xFFEF;
        proof {
            assert(address & 0xFFEF <= address) by (bit_vector);
        }
        let byte1 = self.vram[normalised];
        let byte2 = self.vram[normalised + 1];

        let tile_address = address / 16;
        let row_address = (address % 16) / 2;

        let mut pixel_address: usize = 0;
        while pixel_address < 8
            invariant
                old(self).wf(),
                self.wf(),
                pixel_address <= 8,
                address < 0x1800,
                tile_address == address / 16,
                row_address == (address % 16) / 2,
                byte1 == old(self).vram@[(address & 0xFFEF) as int],
                byte2 == old(self).vram@[(address & 0xFFEF) + 1],
                self.vram == old(self).vram,
                forall|t: int|
                    0 <= t < 384 && t != tile_address ==> (#[trigger] self.tile_set@[t]) == old(
                        self,
                    ).tile_set@[t],
                forall|i: int|
                    0 <= i < 8 && i != row_address ==> (#[trigger] self.tile_set@[tile_address as int]@[i])
                        == old(self).tile_set@[tile_address as int]@[i],
                forall|p: int|
                    0 <= p < pixel_address ==> (#[trigger] self.tile_set@[tile_address as int]@[row_address as int]@[p])
                        == spec_pixel_value(byte1, byte2, p),
            decreases 8 - pixel_address,
        {
            let mask: u8 = 1u8 << (7 - pixel_address) as u8;
            let least_significant_byte = byte1 & mask;
            let most_significant_byte = byte2 & mask;

            let pixel = if least_significant_byte != 0 {
                if most_significant_byte != 0 {
                    TilePixelValue::Three
                } else {
                    TilePixelValue::One
                }
            } else {
                if most_significant_byte != 0 {
                    TilePixelValue::Two
                } else {
                    TilePixelValue::Zero
                }
            };

            self.tile_set[tile_address][row_address][pixel_address] = pixel;
            pixel_address += 1;
        }
    }
}

} // verus!
