//! The memory hierarchy: chunk store bounds, L3 latency, L2 hits, misses,
//! arbitration, reset, and the L1 front.

use voxcast::l2::L2Entry;
use voxcast::{Block, L1Cache, L2Cache, L3Cache, MockCache, Vec3i};

const N: usize = 128;

fn offset(x: i32, y: i32, z: i32) -> usize {
    (((z + 64) as usize) * N + ((y + 64) as usize)) * N + ((x + 64) as usize)
}

fn chunk_with(cells: &[(i32, i32, i32, u8)]) -> MockCache {
    let mut bytes = vec![0u8; N * N * N];
    for &(x, y, z, id) in cells {
        bytes[offset(x, y, z)] = id;
    }
    MockCache::from_bytes(&bytes)
}

/// One combined cache-pair cycle as the owner clocks it: L2 first, then L3.
fn tick(l2: &mut L2Cache) {
    l2.rising_clk_edge();
    l2.l3.rising_clk_edge();
}

#[test]
fn chunk_indexing_and_bounds() {
    let c = chunk_with(&[(0, 0, 5, 1), (-64, -64, -64, 2), (63, 63, 63, 8)]);
    assert_eq!(c.query(Vec3i::new(0, 0, 5)), Some(Block::Stone));
    assert_eq!(c.query(Vec3i::new(-64, -64, -64)), Some(Block::Grass));
    assert_eq!(c.query(Vec3i::new(63, 63, 63)), Some(Block::Water));
    assert_eq!(c.query(Vec3i::new(0, 0, 0)), Some(Block::Air));
    // Any component outside [-64, 64) misses.
    assert_eq!(c.query(Vec3i::new(64, 0, 0)), None);
    assert_eq!(c.query(Vec3i::new(0, 64, 0)), None);
    assert_eq!(c.query(Vec3i::new(0, 0, 64)), None);
    assert_eq!(c.query(Vec3i::new(-65, 0, 0)), None);
    assert_eq!(c.query(Vec3i::new(0, -65, 0)), None);
    assert_eq!(c.query(Vec3i::new(0, 0, -65)), None);
    assert_eq!(c.query(Vec3i::new(1000, -1000, 0)), None);
}

#[test]
fn unknown_ids_decode_to_air() {
    let mut bytes = vec![0u8; N * N * N];
    bytes[offset(1, 2, 3)] = 200;
    bytes[offset(1, 2, 4)] = 17;
    let c = MockCache::from_bytes(&bytes);
    assert_eq!(c.query(Vec3i::new(1, 2, 3)), Some(Block::Air));
    assert_eq!(c.query(Vec3i::new(1, 2, 4)), Some(Block::Glass));
}

#[test]
fn l3_answers_enabled_reads() {
    let mut l3 = L3Cache::new(chunk_with(&[(2, 3, 4, 1)]));
    // Disabled: no valid answer.
    l3.rising_clk_edge();
    assert!(!l3.valid_out);
    // Enabled in-bounds read.
    l3.addr_in = Vec3i::new(2, 3, 4);
    l3.read_enable_in = true;
    l3.rising_clk_edge();
    assert!(l3.valid_out);
    assert_eq!(l3.voxel_out, Block::Stone);
    // Out-of-bounds reads answer Air.
    l3.addr_in = Vec3i::new(100, 0, 0);
    l3.rising_clk_edge();
    assert!(l3.valid_out);
    assert_eq!(l3.voxel_out, Block::Air);
    // Reset clears the outputs.
    l3.reset = true;
    l3.rising_clk_edge();
    assert!(!l3.valid_out);
    assert_eq!(l3.voxel_out, Block::Air);
}

#[test]
fn l2_miss_resolves_within_three_ticks() {
    let l3 = L3Cache::new(chunk_with(&[(7, 0, 0, 2)]));
    let mut l2 = L2Cache::new(1, 16, l3);
    l2.addr_in[0] = Vec3i::new(7, 0, 0);
    l2.read_enable_in[0] = true;
    tick(&mut l2);
    assert!(!l2.valid_out[0]);
    tick(&mut l2);
    assert!(!l2.valid_out[0]);
    tick(&mut l2);
    assert!(l2.valid_out[0]);
    assert_eq!(l2.voxel_out[0], Block::Grass);
}

#[test]
fn l2_hit_answers_on_the_next_tick_without_l3_traffic() {
    let l3 = L3Cache::new(chunk_with(&[(7, 0, 0, 2)]));
    let mut l2 = L2Cache::new(1, 16, l3);
    l2.addr_in[0] = Vec3i::new(7, 0, 0);
    l2.read_enable_in[0] = true;
    // Resolve the first miss so the line is cached.
    tick(&mut l2);
    tick(&mut l2);
    tick(&mut l2);
    assert!(l2.valid_out[0]);
    // A fresh read of the same line hits on the very next tick, and the L3
    // is left alone.
    tick(&mut l2);
    assert!(l2.valid_out[0]);
    assert_eq!(l2.voxel_out[0], Block::Grass);
    assert!(!l2.l3.read_enable_in);
}

#[test]
fn l2_port0_has_priority_under_pressure() {
    let l3 = L3Cache::new(chunk_with(&[(1, 0, 0, 1), (2, 0, 0, 2)]));
    let mut l2 = L2Cache::new(2, 16, l3);
    // Both ports press misses at once; port 0 must resolve first.
    l2.addr_in[0] = Vec3i::new(1, 0, 0);
    l2.read_enable_in[0] = true;
    l2.addr_in[1] = Vec3i::new(2, 0, 0);
    l2.read_enable_in[1] = true;
    tick(&mut l2);
    tick(&mut l2);
    tick(&mut l2);
    assert!(l2.valid_out[0]);
    assert_eq!(l2.voxel_out[0], Block::Stone);
    assert!(!l2.valid_out[1]);
    // Port 1 is served once port 0 stops missing.
    let mut saw_port1 = false;
    for _ in 0..8 {
        tick(&mut l2);
        if l2.valid_out[1] {
            saw_port1 = true;
            break;
        }
    }
    assert!(saw_port1);
    assert_eq!(l2.voxel_out[1], Block::Grass);
}

#[test]
fn l2_reset_clears_all_entries() {
    let l3 = L3Cache::new(chunk_with(&[(7, 0, 0, 2)]));
    let mut l2 = L2Cache::new(1, 16, l3);
    l2.addr_in[0] = Vec3i::new(7, 0, 0);
    l2.read_enable_in[0] = true;
    tick(&mut l2);
    tick(&mut l2);
    tick(&mut l2);
    assert!(l2.valid_out[0]);
    // Reset both levels for one tick.
    l2.reset = true;
    l2.l3.reset = true;
    tick(&mut l2);
    assert!(!l2.valid_out[0]);
    l2.reset = false;
    l2.l3.reset = false;
    // The read immediately after reset misses again.
    tick(&mut l2);
    assert!(!l2.valid_out[0]);
}

#[test]
fn l2_benchmark_counters() {
    let l3 = L3Cache::new(chunk_with(&[(7, 0, 0, 2)]));
    let mut l2 = L2Cache::new(1, 16, l3);
    l2.addr_in[0] = Vec3i::new(7, 0, 0);
    l2.read_enable_in[0] = true;
    tick(&mut l2);
    tick(&mut l2);
    tick(&mut l2);
    tick(&mut l2);
    // Four enabled reads, of which the last two hit.
    assert_eq!(l2.accesses, 4);
    assert_eq!(l2.hits, 2);
    l2.benchmark_reset();
    assert_eq!(l2.accesses, 0);
    assert_eq!(l2.hits, 0);
}

#[test]
fn l1_serves_hits_and_pulls_one_miss() {
    let l3 = L3Cache::new(chunk_with(&[(5, 0, 0, 1), (6, 0, 0, 2)]));
    let mut l2 = L2Cache::new(1, 16, l3);
    // Warm the L2 with both lines through its port.
    for addr in [Vec3i::new(5, 0, 0), Vec3i::new(6, 0, 0)] {
        l2.addr_in[0] = addr;
        l2.read_enable_in[0] = true;
        for _ in 0..4 {
            tick(&mut l2);
        }
        assert!(l2.valid_out[0]);
    }
    let mut l1 = L1Cache::new(4);
    let wanted = vec![Vec3i::new(5, 0, 0), Vec3i::new(6, 0, 0)];
    // First call: both miss; only the lowest port pulls its line.
    let out = l1.query(&l2, &wanted);
    assert_eq!(out, vec![None, None]);
    // Second call: port 0 now hits, port 1 pulls its line.
    let out = l1.query(&l2, &wanted);
    assert_eq!(out, vec![Some(Block::Stone), None]);
    // Third call: both hit.
    let out = l1.query(&l2, &wanted);
    assert_eq!(out, vec![Some(Block::Stone), Some(Block::Grass)]);
}

#[test]
fn l2_lookup_last_matching_line_wins() {
    let l3 = L3Cache::new(chunk_with(&[]));
    let mut l2 = L2Cache::new(1, 4, l3);
    // Two lines under the same key: the scan overwrites with later matches.
    let key = Vec3i::new(9, 9, 9);
    l2.entries[0] = Some(L2Entry { key, value: Block::Stone });
    l2.entries[2] = Some(L2Entry { key, value: Block::Sand });
    assert_eq!(l2.query(key), Some(Block::Sand));
    assert_eq!(l2.query(Vec3i::new(8, 9, 9)), None);
}
