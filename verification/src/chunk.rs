//! The backing voxel store: a cubic array of blocks indexed by centered
//! integer coordinates.

use vstd::prelude::*;

use crate::block::{block_of_id, Block};
use crate::vec3i::Vec3i;

verus! {

/// Side length of the chunk in voxels.
pub const CHUNK_SIZE: usize = 128;

/// Half the side length: coordinates are centered on the chunk.
pub const CHUNK_HALF: i32 = 64;

/// Total number of voxels in the chunk.
pub const CHUNK_VOLUME: usize = 0x200000;

/// Whether a centered coordinate lies inside the chunk.
pub open spec fn chunk_in_bounds(idx: Vec3i) -> bool {
    &&& -64 <= idx.x < 64
    &&& -64 <= idx.y < 64
    &&& -64 <= idx.z < 64
}

/// The linear index of an in-bounds centered coordinate: byte at offset
/// `N*(N*z' + y') + x'` of the blob, with each component re-centered by
/// `N/2`.
pub open spec fn chunk_index(idx: Vec3i) -> int {
    128 * (128 * (idx.z + 64) + (idx.y + 64)) + (idx.x + 64)
}

/// What a query returns: the stored block inside the chunk, a miss outside.
pub open spec fn chunk_query(blocks: Seq<Block>, idx: Vec3i) -> Option<Block> {
    if chunk_in_bounds(idx) {
        Some(blocks[chunk_index(idx)])
    } else {
        None
    }
}

/// A query folded to a voxel, with a miss reading as `Air`.
pub open spec fn chunk_query_or_air(blocks: Seq<Block>, idx: Vec3i) -> Block {
    match chunk_query(blocks, idx) {
        Some(b) => b,
        None => Block::Air,
    }
}

/// A memory with instant access holding the whole chunk, for the bottom of
/// the cache hierarchy.
pub struct MockCache {
    chunk: Vec<Block>,
}

impl MockCache {
    /// The stored voxels, in blob order.
    pub closed spec fn blocks(self) -> Seq<Block> {
        self.chunk@
    }

    /// The store holds exactly one block per cell of the cube.
    pub open spec fn wf(self) -> bool {
        self.blocks().len() == CHUNK_VOLUME
    }

    /// Decode a chunk blob: one byte per voxel, in `x`-fastest order.
    pub fn from_bytes(bytes: &[u8]) -> (r: MockCache)
        requires
            bytes@.len() == CHUNK_VOLUME,
        ensures
            r.wf(),
            forall|i: int|
                0 <= i < CHUNK_VOLUME ==> r.blocks()[i] == block_of_id(bytes@[i]),
    {
        let mut chunk: Vec<Block> = Vec::new();
        let mut i: usize = 0;
        while i < CHUNK_VOLUME
            invariant
                bytes@.len() == CHUNK_VOLUME,
                i <= CHUNK_VOLUME,
                chunk@.len() == i,
                forall|j: int| 0 <= j < i ==> chunk@[j] == block_of_id(bytes@[j]),
            decreases CHUNK_VOLUME - i,
        {
            chunk.push(Block::from_id(bytes[i]));
            i = i + 1;
        }
        MockCache { chunk }
    }

    /// Read the voxel at a centered coordinate; any component outside
    /// `[-CHUNK_HALF, CHUNK_HALF)` is a miss.
    pub fn query(&self, idx: Vec3i) -> (r: Option<Block>)
        requires
            self.wf(),
        ensures
            r == chunk_query(self.blocks(), idx),
    {
        if idx.x < -64 || idx.x >= 64 || idx.y < -64 || idx.y >= 64 || idx.z < -64 || idx.z >= 64 {
            return None;
        }
        let x = (idx.x + 64) as usize;
        let y = (idx.y + 64) as usize;
        let z = (idx.z + 64) as usize;
        Some(self.chunk[128 * (128 * z + y) + x])
    }
}

} // verus!

verus! {

/// Law: a query outside the chunk — any component below `-CHUNK_HALF` or at
/// or above `CHUNK_HALF` — is a miss, whatever the chunk holds.
pub proof fn lemma_out_of_bounds_misses(blocks: Seq<Block>, idx: Vec3i)
    requires
        !chunk_in_bounds(idx),
    ensures
        chunk_query(blocks, idx) is None,
{
}

} // verus!
