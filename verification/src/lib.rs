//! A cycle-accurate model of a small FPGA voxel ray-casting renderer.
//!
//! The engine casts one ray per pixel through a cubic voxel chunk using a
//! 3-D DDA traversal, shades the first hit with a single directional light,
//! and writes the result into a fixed-size framebuffer.  Every component
//! advances its state exactly once per `rising_clk_edge` tick, modelling a
//! synchronous digital circuit: the traversal units read voxels through a
//! multi-port L2 cache backed by a single-port L3 cache in front of the
//! chunk store.

pub mod block;
pub mod chunk;
pub mod fixed;
pub mod l1;
pub mod l2;
pub mod l3;
pub mod orchestrator;
pub mod rgb565;
pub mod top_level;
pub mod vec3;
pub mod vtu;
pub mod vec3i;

pub use block::Block;
pub use chunk::MockCache;
pub use fixed::Fixed;
pub use l1::L1Cache;
pub use l2::L2Cache;
pub use l3::L3Cache;
pub use orchestrator::Orchestrator;
pub use rgb565::Rgb565;
pub use top_level::TopLevel;
pub use vec3::Vec3;
pub use vtu::VoxelTraversalUnit;
pub use vec3i::Vec3i;
