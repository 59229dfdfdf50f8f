//! The video memory stub: stores raw video RAM bytes and keeps an
//! (unused) tile cache, producing no pixels.

use vstd::prelude::*;
use crate::memory_bus::VRAM_SIZE;

verus! {

/// One of the four colour values a tile pixel can take.
#[derive(Clone, Copy, PartialEq, Eq, Structural, Debug)]
pub enum TilePixelValue {
    Zero,
    One,
    Two,
    Three,
}

/// An 8-by-8 block of tile pixels.
pub type Tile = Vec<Vec<TilePixelValue>>;

/// A tile with every pixel at colour value zero.
pub fn empty_tile() -> (r: Tile)
    ensures
        r@.len() == 8,
        forall|i: int| 0 <= i < 8 ==> (#[trigger] r@[i])@.len() == 8,
        forall|i: int, j: int|
            0 <= i < 8 && 0 <= j < 8 ==> (#[trigger] r@[i]@[j]) == TilePixelValue::Zero,
{
    let mut tile: Tile = Vec::new();
    let mut i: usize = 0;
    while i < 8
        invariant
            i <= 8,
            tile@.len() == i,
            forall|k: int| 0 <= k < i ==> (#[trigger] tile@[k])@.len() == 8,
            forall|k: int, j: int|
                0 <= k < i && 0 <= j < 8 ==> (#[trigger] tile@[k]@[j]) == TilePixelValue::Zero,
        decreases 8 - i,
    {
        let mut row: Vec<TilePixelValue> = Vec::new();
        let mut j: usize = 0;
        while j < 8
            invariant
                j <= 8,
                row@.len() == j,
                forall|k: int| 0 <= k < j ==> (#[trigger] row@[k]) == TilePixelValue::Zero,
            decreases 8 - j,
        {
            row.push(TilePixelValue::Zero);
            j += 1;
        }
        tile.push(row);
        i += 1;
    }
    tile
}

/// Video RAM with a tile cache. This component only stores bytes: no
/// tile decoding or rendering is performed.
pub struct GPU {
    pub vram: Vec<u8>,
    pub tile_set: Vec<Tile>,
}

impl GPU {
    /// Structural well-formedness: video RAM spans the full region and
    /// the tile cache holds 384 8-by-8 tiles.
    pub open spec fn wf(&self) -> bool {
        &&& self.vram@.len() == VRAM_SIZE
        &&& self.tile_set@.len() == 384
        &&& forall|t: int|
            0 <= t < 384 ==> (#[trigger] self.tile_set@[t])@.len() == 8
        &&& forall|t: int, i: int|
            0 <= t < 384 && 0 <= i < 8 ==> (#[trigger] self.tile_set@[t]@[i])@.len() == 8
    }

    /// A fresh video memory: all bytes zero, all tiles blank.
    pub fn new() -> (r: GPU)
        ensures
            r.wf(),
            forall|i: int| 0 <= i < VRAM_SIZE ==> (#[trigger] r.vram@[i]) == 0,
    {
        let mut vram: Vec<u8> = Vec::new();
        let mut i: usize = 0;
        while i < VRAM_SIZE
            invariant
                i <= VRAM_SIZE,
                vram@.len() == i,
                forall|k: int| 0 <= k < i ==> (#[trigger] vram@[k]) == 0,
            decreases VRAM_SIZE - i,
        {
            vram.push(0);
            i += 1;
        }
        let mut tile_set: Vec<Tile> = Vec::new();
        let mut t: usize = 0;
        while t < 384
            invariant
                t <= 384,
                tile_set@.len() == t,
                forall|k: int| 0 <= k < t ==> (#[trigger] tile_set@[k])@.len() == 8,
                forall|k: int, i2: int|
                    0 <= k < t && 0 <= i2 < 8 ==> (#[trigger] tile_set@[k]@[i2])@.len() == 8,
            decreases 384 - t,
        {
            tile_set.push(empty_tile());
            t += 1;
        }
        GPU { vram, tile_set }
    }

    /// The byte stored at a video RAM offset.
    pub fn read_vram(&self, address: usize) -> (r: u8)
        requires
            self.wf(),
            address < VRAM_SIZE,
        ensures
            r == self.vram@[address as int],
    {
        self.vram[address]
    }

    /// Store a byte at a video RAM offset; nothing else changes.
    pub fn write_vram(&mut self, address: usize, value: u8)
        requires
            old(self).wf(),
            address < VRAM_SIZE,
        ensures
            final(self).wf(),
            final(self).vram@ == old(self).vram@.update(address as int, value),
            final(self).tile_set == old(self).tile_set,
    {
        self.vram[address] = value;
    }
}

} // verus!
