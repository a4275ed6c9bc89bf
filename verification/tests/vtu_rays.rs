//! The voxel traversal unit: single rays through the clocked cache
//! hierarchy and through the instant cast.

use voxcast::{Block, Fixed, L2Cache, L3Cache, MockCache, Vec3, VoxelTraversalUnit};

const N: usize = 128;

fn offset(x: i32, y: i32, z: i32) -> usize {
    (((z + 64) as usize) * N + ((y + 64) as usize)) * N + ((x + 64) as usize)
}

fn chunk_with(cells: &[(i32, i32, i32, u8)]) -> MockCache {
    let mut bytes = vec![0u8; N * N * N];
    for &(x, y, z, id) in cells {
        bytes[offset(x, y, z)] = id;
    }
    MockCache::from_bytes(&bytes)
}

fn fx(x: f64) -> Fixed {
    Fixed::from_raw((x * 32768.0) as i32)
}

fn v(x: f64, y: f64, z: f64) -> Vec3 {
    Vec3::new(fx(x), fx(y), fx(z))
}

/// One full system cycle for a lone unit: L2, L3, then the unit.
fn tick(vtu: &mut VoxelTraversalUnit, l2: &mut L2Cache) {
    l2.rising_clk_edge();
    l2.l3.rising_clk_edge();
    vtu.rising_clk_edge(l2);
}

/// Drive one ray to completion, counting ticks and the rising edges of
/// `valid_out`.
fn cast(vtu: &mut VoxelTraversalUnit, l2: &mut L2Cache, origin: Vec3, dir: Vec3) -> usize {
    vtu.ray_origin_in = origin;
    vtu.ray_direction_in = dir;
    vtu.ray_init_in = true;
    tick(vtu, l2);
    vtu.ray_init_in = false;
    let mut ticks = 1;
    let mut rises = 0;
    let mut prev = vtu.valid_out;
    // MAX_STEPS plus worst-case cache latency per step.
    while ticks < 110 * 4 + 16 {
        tick(vtu, l2);
        ticks += 1;
        if vtu.valid_out && !prev {
            rises += 1;
        }
        prev = vtu.valid_out;
        if vtu.valid_out && ticks > 2 {
            // Run a few more ticks: the output must hold steady.
            for _ in 0..5 {
                tick(vtu, l2);
                assert!(vtu.valid_out);
            }
            break;
        }
    }
    assert_eq!(rises, 1, "valid_out must rise exactly once per ray");
    assert!(vtu.valid_out, "ray must complete within the tick budget");
    ticks
}

#[test]
fn hits_a_block_ahead_with_entry_normal() {
    // A single solid block at (0, 0, 5), camera at the origin looking +Z.
    let chunk = chunk_with(&[(0, 0, 5, 1)]);
    let mut l2 = L2Cache::new(1, 16, L3Cache::new(chunk));
    let mut vtu = VoxelTraversalUnit::new(0);
    cast(&mut vtu, &mut l2, v(0.0, 0.0, 0.0), v(0.0, 0.0, 1.0));
    assert_eq!(vtu.voxel_out, Block::Stone);
    assert_eq!(vtu.normal_out, v(0.0, 0.0, -1.0));
}

#[test]
fn all_air_chunk_reports_a_miss() {
    let chunk = chunk_with(&[]);
    let mut l2 = L2Cache::new(1, 16, L3Cache::new(chunk));
    let mut vtu = VoxelTraversalUnit::new(0);
    cast(&mut vtu, &mut l2, v(0.0, 0.0, 0.0), v(0.0, 0.0, 1.0));
    assert_eq!(vtu.voxel_out, Block::Air);
}

#[test]
fn immediate_hit_has_zero_normal() {
    // The ray starts inside a solid voxel: no step was taken, so the
    // reported normal is zero.
    let chunk = chunk_with(&[(0, 0, 0, 8)]);
    let mut l2 = L2Cache::new(1, 16, L3Cache::new(chunk));
    let mut vtu = VoxelTraversalUnit::new(0);
    cast(&mut vtu, &mut l2, v(0.5, 0.5, 0.5), v(0.0, 0.0, 1.0));
    assert_eq!(vtu.voxel_out, Block::Water);
    assert_eq!(vtu.normal_out, v(0.0, 0.0, 0.0));
}

#[test]
fn entry_normals_follow_the_approach_axis() {
    let chunk = chunk_with(&[(0, 3, 0, 1)]);
    let mut l2 = L2Cache::new(1, 16, L3Cache::new(chunk));
    let mut vtu = VoxelTraversalUnit::new(0);
    // Approaching from below: the entered face looks -Y.
    cast(&mut vtu, &mut l2, v(0.5, 0.5, 0.5), v(0.0, 1.0, 0.0));
    assert_eq!(vtu.voxel_out, Block::Stone);
    assert_eq!(vtu.normal_out, v(0.0, -1.0, 0.0));
    // Approaching from the +X side: the entered face looks +X.
    let chunk = chunk_with(&[(-3, 0, 0, 1)]);
    let mut l2 = L2Cache::new(1, 16, L3Cache::new(chunk));
    cast(&mut vtu, &mut l2, v(0.5, 0.5, 0.5), v(-1.0, 0.0, 0.0));
    assert_eq!(vtu.voxel_out, Block::Stone);
    assert_eq!(vtu.normal_out, v(1.0, 0.0, 0.0));
}

#[test]
fn reset_returns_the_unit_to_idle() {
    let chunk = chunk_with(&[(0, 0, 2, 1)]);
    let mut l2 = L2Cache::new(1, 16, L3Cache::new(chunk));
    let mut vtu = VoxelTraversalUnit::new(0);
    cast(&mut vtu, &mut l2, v(0.0, 0.0, 0.0), v(0.0, 0.0, 1.0));
    assert!(vtu.valid_out);
    vtu.reset = true;
    tick(&mut vtu, &mut l2);
    assert!(!vtu.valid_out);
    assert_eq!(vtu.voxel_out, Block::Air);
    vtu.reset = false;
    // The unit casts correctly again after reset.
    cast(&mut vtu, &mut l2, v(0.0, 0.0, 0.0), v(0.0, 0.0, 1.0));
    assert_eq!(vtu.voxel_out, Block::Stone);
}

#[test]
fn mock_cast_matches_the_clocked_path() {
    let chunk = chunk_with(&[(0, 0, 5, 1)]);
    let mut l2 = L2Cache::new(1, 16, L3Cache::new(chunk_with(&[(0, 0, 5, 1)])));
    let mut clocked = VoxelTraversalUnit::new(0);
    cast(&mut clocked, &mut l2, v(0.25, 0.25, 0.25), v(0.1, -0.05, 1.0));
    let mut instant = VoxelTraversalUnit::new(0);
    instant.ray_origin_in = v(0.25, 0.25, 0.25);
    instant.ray_direction_in = v(0.1, -0.05, 1.0);
    instant.mock_cast(&chunk);
    assert!(instant.valid_out);
    assert_eq!(instant.voxel_out, clocked.voxel_out);
    assert_eq!(instant.normal_out, clocked.normal_out);
}

#[test]
fn mock_cast_misses_out_of_bounds() {
    let chunk = chunk_with(&[]);
    let mut vtu = VoxelTraversalUnit::new(0);
    vtu.ray_origin_in = v(0.0, 0.0, 0.0);
    vtu.ray_direction_in = v(0.0, 0.0, 1.0);
    vtu.mock_cast(&chunk);
    assert!(vtu.valid_out);
    assert_eq!(vtu.voxel_out, Block::Air);
}
