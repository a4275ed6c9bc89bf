//! End-to-end frames through the orchestrator and the top level: clocked
//! scenarios, the instant reference render, and the per-frame invariants.

use voxcast::orchestrator::{shade, NUM_PIXELS};
use voxcast::{Block, Fixed, MockCache, Orchestrator, Rgb565, TopLevel, Vec3};

const N: usize = 128;
const W: usize = 160;

fn offset(x: i32, y: i32, z: i32) -> usize {
    (((z + 64) as usize) * N + ((y + 64) as usize)) * N + ((x + 64) as usize)
}

fn fx(x: f64) -> Fixed {
    Fixed::from_raw((x * 32768.0) as i32)
}

fn v(x: f64, y: f64, z: f64) -> Vec3 {
    Vec3::new(fx(x), fx(y), fx(z))
}

fn px(x: usize, y: usize) -> usize {
    y * W + x
}

fn sky() -> Rgb565 {
    Rgb565::new(174, 200, 235)
}

fn all_air() -> Vec<u8> {
    vec![0u8; N * N * N]
}

/// The instant render's light factor for a given normal: 0.4 + 0.2 * (n . sun).
fn instant_light(n: Vec3) -> Fixed {
    let sun = v(1.0, -5.0, 2.0);
    Fixed::from_raw(13107).add(Fixed::from_raw(6553).mul(n.dot(sun.normalized())))
}

/// One channel of the instant palette: widen, scale, floor.
fn lit(c: u8, light: Fixed) -> u8 {
    Fixed::from_int(c as i32).mul(light).floor() as u8
}

/// Reset the design for one tick and release the line.
fn reset(top: &mut TopLevel) {
    top.reset = true;
    top.rising_clk_edge();
    top.reset = false;
}

/// Tick until `frame_done_out` rises, checking the pixel-cursor invariant
/// along the way; returns the tick count.
fn run_frame(top: &mut TopLevel, budget: usize) -> usize {
    let mut ticks = 0;
    loop {
        top.rising_clk_edge();
        ticks += 1;
        assert!(top.orchestrator.next_pixel <= NUM_PIXELS);
        if top.orchestrator.frame_done_out {
            return ticks;
        }
        assert!(ticks < budget, "frame did not complete within the budget");
    }
}

#[test]
fn top_level_reset_restores_the_camera() {
    let mut top = TopLevel::new(MockCache::from_bytes(&all_air()));
    top.orchestrator.camera_pos_in = v(3.0, 4.0, 5.0);
    top.orchestrator.camera_heading_in = v(1.0, 1.0, 0.0);
    reset(&mut top);
    assert_eq!(top.orchestrator.camera_pos_in, Vec3::zero());
    assert_eq!(top.orchestrator.camera_heading_in, Vec3::forward());
    assert!(!top.orchestrator.frame_done_out);
    assert!(top.orchestrator.frame_buffer_out.iter().all(|p| *p == Rgb565::black()));
}

#[test]
fn water_everywhere_renders_and_pulses_once_per_frame() {
    // Every ray starts inside water and completes immediately: two full
    // clocked frames stay cheap, and with no step taken the normal is zero.
    let mut top = TopLevel::new(MockCache::from_bytes(&vec![8u8; N * N * N]));
    reset(&mut top);
    top.orchestrator.camera_pos_in = v(0.0, 0.0, 1.0);
    top.orchestrator.camera_heading_in = v(0.0, 0.0, 1.0);
    top.orchestrator.l2.benchmark_reset();

    run_frame(&mut top, 2_000_000);
    let expected = shade(Block::Water, Vec3::zero());
    assert_eq!(top.orchestrator.frame_buffer_out[px(80, 64)], expected);
    // Every pixel was written: the whole frame carries the shaded water.
    assert!(top.orchestrator.frame_buffer_out.iter().all(|p| *p == expected));
    assert_ne!(expected, Rgb565::black());

    // The pulse lasts exactly one tick; afterwards the counters show the
    // cache absorbed the traffic.
    let frame1 = top.orchestrator.frame_buffer_out.clone();
    top.rising_clk_edge();
    assert!(!top.orchestrator.frame_done_out);
    assert!(top.orchestrator.l2.accesses > 0);
    assert!(top.orchestrator.l2.hits > 0);

    // A second frame with the same inputs reproduces the image bit-exactly.
    run_frame(&mut top, 2_000_000);
    assert_eq!(top.orchestrator.frame_buffer_out, frame1);
    top.rising_clk_edge();
    assert!(!top.orchestrator.frame_done_out);
}

#[test]
fn grass_slab_shades_the_centre_pixel() {
    // A grass slab across z in [5, 10); the camera at the origin looks +Z.
    let mut bytes = all_air();
    for z in 5..10 {
        for y in -64..64 {
            for x in -64..64 {
                bytes[offset(x, y, z)] = 2;
            }
        }
    }
    let mut top = TopLevel::new(MockCache::from_bytes(&bytes));
    reset(&mut top);
    top.orchestrator.camera_pos_in = v(0.0, 0.0, 0.0);
    top.orchestrator.camera_heading_in = v(0.0, 0.0, 1.0);

    run_frame(&mut top, 8_000_000);
    let expected = shade(Block::Grass, v(0.0, 0.0, -1.0));
    assert_eq!(expected.bits, 0x1942);
    assert_eq!(top.orchestrator.frame_buffer_out[px(80, 64)], expected);
    // Every ray meets the slab, so every pixel was shaded.
    assert!(top.orchestrator.frame_buffer_out.iter().all(|p| *p != Rgb565::black()));
}

#[test]
fn mock_render_all_air_is_sky() {
    let mut orch = Orchestrator::new(MockCache::from_bytes(&all_air()));
    orch.camera_pos_in = v(0.0, 0.0, 0.0);
    orch.camera_heading_in = v(0.0, 0.0, 1.0);
    orch.mock_render();
    assert_eq!(orch.frame_buffer_out[px(80, 64)], sky());
    assert!(orch.frame_buffer_out.iter().all(|p| *p == sky()));
}

#[test]
fn mock_render_stone_below_eye_level_misses() {
    // A lone stone block at the origin; the camera stands on top of it at
    // (0, 1, 0) looking +Z. The centre row above the horizon sees sky.
    let mut bytes = all_air();
    bytes[offset(0, 0, 0)] = 1;
    let mut orch = Orchestrator::new(MockCache::from_bytes(&bytes));
    orch.camera_pos_in = v(0.0, 1.0, 0.0);
    orch.camera_heading_in = v(0.0, 0.0, 1.0);
    orch.mock_render();
    assert_eq!(orch.frame_buffer_out[px(80, 63)], sky());
    // The whole top half of the image is sky.
    assert!((0..60).all(|row| orch.frame_buffer_out[px(80, row)] == sky()));
}

#[test]
fn mock_render_grass_floor_splits_the_frame() {
    // A grass floor at y = -1; the camera looks +Z tilted slightly down:
    // the upper rows see sky, the lower rows the lit floor.
    let mut bytes = all_air();
    for z in -64..64 {
        for x in -64..64 {
            bytes[offset(x, -1, z)] = 2;
        }
    }
    let mut orch = Orchestrator::new(MockCache::from_bytes(&bytes));
    orch.camera_pos_in = v(0.0, 0.0, 0.0);
    orch.camera_heading_in = v(0.0, -0.1, 1.0);
    orch.mock_render();
    assert_eq!(orch.frame_buffer_out[px(80, 10)], sky());
    // The instant palette gives every non-Air, non-Water voxel one fallback
    // colour, lit by the normal of the previous pixel's hit — here the same
    // upward floor normal.
    let light = instant_light(v(0.0, 1.0, 0.0));
    let floor = Rgb565::new(lit(98, light), lit(168, light), lit(98, light));
    assert_eq!(orch.frame_buffer_out[px(80, 120)], floor);
    assert_ne!(floor, sky());
}

#[test]
fn mock_render_water_uses_the_instant_palette() {
    // Every ray starts inside water: each cast hits with a zero normal, and
    // the light is sampled one cast late, so the whole frame is the water
    // colour at the ambient light 0.4.
    let mut orch = Orchestrator::new(MockCache::from_bytes(&vec![8u8; N * N * N]));
    orch.camera_pos_in = v(0.0, 0.0, 1.0);
    orch.camera_heading_in = v(0.0, 0.0, 1.0);
    orch.mock_render();
    let light = instant_light(Vec3::zero());
    let water = Rgb565::new(lit(52, light), lit(67, light), lit(138, light));
    assert!(orch.frame_buffer_out.iter().all(|p| *p == water));
    assert_ne!(water, sky());
    assert_ne!(water, Rgb565::black());
}

#[test]
fn mock_render_is_deterministic() {
    // The light is sampled from the normal register one cast late, so the
    // comparison starts both renders from identical unit state.
    let mut bytes = all_air();
    bytes[offset(0, 0, 5)] = 1;
    let mut first = Orchestrator::new(MockCache::from_bytes(&bytes));
    first.camera_pos_in = v(0.0, 0.0, 0.0);
    first.camera_heading_in = v(0.1, 0.05, 1.0);
    first.mock_render();
    let mut second = Orchestrator::new(MockCache::from_bytes(&bytes));
    second.camera_pos_in = v(0.0, 0.0, 0.0);
    second.camera_heading_in = v(0.1, 0.05, 1.0);
    second.mock_render();
    assert_eq!(second.frame_buffer_out, first.frame_buffer_out);
}

#[test]
fn shading_exact_values() {
    // A miss is sky whatever the normal says.
    assert_eq!(shade(Block::Air, v(0.0, 1.0, 0.0)), sky());
    // Grass entered through a face looking -Z, under the (1, -5, 2) sun:
    // light is 10716/32768, the stored channels 88/132/72 scale to
    // 28/43/23, repacking to 0x1942.
    assert_eq!(shade(Block::Grass, v(0.0, 0.0, -1.0)).bits, 0x1942);
    // Distinct voxel kinds shade to distinct colours under the same light.
    let n = v(0.0, 0.0, -1.0);
    let w = shade(Block::Water, n);
    let d = shade(Block::Dirt, n);
    let g = shade(Block::Grass, n);
    assert_ne!(w, d);
    assert_ne!(w, g);
    assert_ne!(d, g);
}
