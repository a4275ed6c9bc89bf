//! The tagged voxel kind carried by every cell of the world.

use vstd::prelude::*;

verus! {

/// An 8-bit tagged voxel kind; `Air` means "empty / miss".
#[derive(Clone, Copy, Debug, PartialEq, Eq, Structural)]
pub enum Block {
    Air,
    Stone,
    Grass,
    Dirt,
    Cobblestone,
    OakPlanks,
    SprucePlanks,
    BirchPlanks,
    Water,
    Sand,
    Gravel,
    OakLog,
    SpruceLog,
    BirchLog,
    OakLeaves,
    SpruceLeaves,
    BirchLeaves,
    Glass,
}

/// The voxel kind encoded by a chunk-blob byte; unknown identifiers decode
/// to `Air`.
pub open spec fn block_of_id(id: u8) -> Block {
    match id {
        0u8 => Block::Air,
        1u8 => Block::Stone,
        2u8 => Block::Grass,
        3u8 => Block::Dirt,
        4u8 => Block::Cobblestone,
        5u8 => Block::OakPlanks,
        6u8 => Block::SprucePlanks,
        7u8 => Block::BirchPlanks,
        8u8 => Block::Water,
        9u8 => Block::Sand,
        10u8 => Block::Gravel,
        11u8 => Block::OakLog,
        12u8 => Block::SpruceLog,
        13u8 => Block::BirchLog,
        14u8 => Block::OakLeaves,
        15u8 => Block::SpruceLeaves,
        16u8 => Block::BirchLeaves,
        17u8 => Block::Glass,
        _ => Block::Air,
    }
}

impl Block {
    /// Decode one chunk-blob byte.
    pub fn from_id(id: u8) -> (r: Block)
        ensures
            r == block_of_id(id),
    {
        match id {
            0u8 => Block::Air,
            1u8 => Block::Stone,
            2u8 => Block::Grass,
            3u8 => Block::Dirt,
            4u8 => Block::Cobblestone,
            5u8 => Block::OakPlanks,
            6u8 => Block::SprucePlanks,
            7u8 => Block::BirchPlanks,
            8u8 => Block::Water,
            9u8 => Block::Sand,
            10u8 => Block::Gravel,
            11u8 => Block::OakLog,
            12u8 => Block::SpruceLog,
            13u8 => Block::BirchLog,
            14u8 => Block::OakLeaves,
            15u8 => Block::SpruceLeaves,
            16u8 => Block::BirchLeaves,
            17u8 => Block::Glass,
            _ => Block::Air,
        }
    }

    /// Whether this voxel is empty.
    pub fn is_air(self) -> (r: bool)
        ensures
            r == (self == Block::Air),
    {
        self == Block::Air
    }
}

} // verus!
