//! The single-port clocked cache in front of the chunk store, standing in
//! for off-chip memory.

use vstd::prelude::*;

use crate::block::Block;
use crate::chunk::{chunk_query_or_air, MockCache};
use crate::vec3i::Vec3i;

verus! {

/// A single-port clocked memory: drive `addr_in`/`read_enable_in`, tick,
/// and read `voxel_out` when `valid_out` rises. It serves one outstanding
/// request at a time.
pub struct L3Cache {
    /// Reset the cache to a known state on the next tick.
    pub reset: bool,
    /// Voxel index being queried.
    pub addr_in: Vec3i,
    /// Whether `addr_in` should actually be queried.
    pub read_enable_in: bool,
    /// Voxel data last read.
    pub voxel_out: Block,
    /// Whether `voxel_out` answers the address that was driven.
    pub valid_out: bool,
    /// The backing chunk store; only the cache itself drives it.
    pub ddr_ram: MockCache,
}

/// How one rising clock edge transforms an `L3Cache`: inputs and the backing
/// store are untouched; on reset the outputs clear; otherwise an enabled
/// read answers in one tick with the stored voxel (`Air` on an out-of-bounds
/// miss), and a disabled port drops `valid_out`.
pub open spec fn l3_step(pre: L3Cache, post: L3Cache) -> bool {
    &&& post.ddr_ram == pre.ddr_ram
    &&& post.reset == pre.reset
    &&& post.addr_in == pre.addr_in
    &&& post.read_enable_in == pre.read_enable_in
    &&& if pre.reset {
        post.voxel_out == Block::Air && !post.valid_out
    } else if !pre.read_enable_in {
        post.voxel_out == pre.voxel_out && !post.valid_out
    } else {
        post.valid_out && post.voxel_out == chunk_query_or_air(pre.ddr_ram.blocks(), pre.addr_in)
    }
}

impl L3Cache {
    pub open spec fn wf(self) -> bool {
        self.ddr_ram.wf()
    }

    /// A quiescent cache in front of the given chunk store.
    pub fn new(chunk: MockCache) -> (r: L3Cache)
        requires
            chunk.wf(),
        ensures
            r.wf(),
            r.ddr_ram == chunk,
            !r.reset,
            r.addr_in == (Vec3i { x: 0, y: 0, z: 0 }),
            !r.read_enable_in,
            r.voxel_out == Block::Air,
            !r.valid_out,
    {
        L3Cache {
            reset: false,
            addr_in: Vec3i { x: 0, y: 0, z: 0 },
            read_enable_in: false,
            voxel_out: Block::Air,
            valid_out: false,
            ddr_ram: chunk,
        }
    }

    /// Advance the cache by one clock cycle.
    pub fn rising_clk_edge(&mut self)
        requires
            old(self).wf(),
        ensures
            final(self).wf(),
            l3_step(*old(self), *final(self)),
    {
        if self.reset {
            self.voxel_out = Block::Air;
            self.valid_out = false;
            return;
        }
        if !self.read_enable_in {
            self.valid_out = false;
            return;
        }
        let fetched = self.ddr_ram.query(self.addr_in);
        self.voxel_out = match fetched {
            Some(b) => b,
            None => Block::Air,
        };
        self.valid_out = true;
    }
}

} // verus!
