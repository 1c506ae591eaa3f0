//! Video memory: three blocks of tile data followed by two tile maps.

use vstd::prelude::*;
use vstd::slice::slice_subrange;

verus! {

/// Bytes in one block of tile data: 128 tiles of 16 bytes.
pub const BLOCK_SIZE: usize = 2048;

/// Bytes in one tile map.
pub const TILEMAP_SIZE: usize = 1024;

/// A view of video memory.
pub struct VRam<'mem>(pub &'mem [u8]);

/// One block of tile data.
pub struct Block<'mem>(pub &'mem [u8]);

/// One tile map.
pub struct Tilemap<'mem>(pub &'mem [u8]);

/// Views `slice` as video memory.
pub fn as_vram<'mem>(slice: &'mem [u8]) -> (vram: VRam<'mem>)
    ensures
        vram.0@ == slice@,
{
    VRam(slice)
}

impl<'mem> VRam<'mem> {
    /// The first block of tile data: bytes 0 to 2047.
    pub fn block1(&self) -> (block: Block<'mem>)
        requires
            self.0@.len() >= 2048,
        ensures
            block.0@ == self.0@.subrange(0, 2048),
    {
        Block(slice_subrange(self.0, 0, BLOCK_SIZE))
    }

    /// The second block of tile data: bytes 2048 to 4095.
    pub fn block2(&self) -> (block: Block<'mem>)
        requires
            self.0@.len() >= 4096,
        ensures
            block.0@ == self.0@.subrange(2048, 4096),
    {
        Block(slice_subrange(self.0, BLOCK_SIZE, 2 * BLOCK_SIZE))
    }

    /// The third block of tile data: bytes 4096 to 6143.
    pub fn block3(&self) -> (block: Block<'mem>)
        requires
            self.0@.len() >= 6144,
        ensures
            block.0@ == self.0@.subrange(4096, 6144),
    {
        Block(slice_subrange(self.0, 2 * BLOCK_SIZE, 3 * BLOCK_SIZE))
    }

    /// The first tile map: bytes 6144 to 7167.
    pub fn tilemap_0(&self) -> (map: Tilemap<'mem>)
        requires
            self.0@.len() >= 7168,
        ensures
            map.0@ == self.0@.subrange(6144, 7168),
    {
        Tilemap(slice_subrange(self.0, 3 * BLOCK_SIZE, 3 * BLOCK_SIZE + TILEMAP_SIZE))
    }

    /// The second tile map: bytes 7168 to 8191.
    pub fn tilemap_1(&self) -> (map: Tilemap<'mem>)
        requires
            self.0@.len() >= 8192,
        ensures
            map.0@ == self.0@.subrange(7168, 8192),
    {
        let start = 3 * BLOCK_SIZE + TILEMAP_SIZE;
        Tilemap(slice_subrange(self.0, start, start + TILEMAP_SIZE))
    }
}

} // verus!
