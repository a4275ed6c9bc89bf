//! The orchestrator: owns the cache hierarchy and the traversal units,
//! computes the camera basis once per frame, assigns pixels to idle units,
//! shades completed rays into the framebuffer, and pulses `frame_done_out`
//! for one tick when the last pixel of a frame retires.

use vstd::prelude::*;

use crate::block::Block;
use crate::chunk::MockCache;
use crate::fixed::Fixed;
use crate::l2::{l2_step, L2Cache};
use crate::l3::{l3_step, L3Cache};
use crate::rgb565::{pack565, scale_channel, Rgb565};
use crate::vec3::{v3_add, v3_cross, v3_dot, v3_neg, v3_normalized, v3_raw, v3_scale, v3_sub, Vec3};
use crate::vtu::{vtu_step, VoxelTraversalUnit};

verus! {

/// Framebuffer width in pixels.
pub const FRAME_WIDTH: usize = 160;

/// Framebuffer height in pixels.
pub const FRAME_HEIGHT: usize = 128;

/// Total pixels per frame.
pub const NUM_PIXELS: usize = 20480;

/// How many traversal units render in parallel.
pub const NUM_VTU: usize = 1;

/// How many lines the shared L2 cache holds.
pub const NUM_L2_ENTRIES: usize = 16;

/// Raw register of the viewport width in world units: `2 * 160 / 128`.
pub const VIEWPORT_W_RAW: i32 = 0x14000;

/// Raw register of the viewport height in world units: 2.
pub const VIEWPORT_H_RAW: i32 = 0x10000;

/// Raw register of the world-space distance between adjacent pixel centres,
/// the same on both axes: `2.5 / 160 == 2.0 / 128 == 1/64`.
pub const PIXEL_PITCH_RAW: i32 = 0x200;

/// The engine: camera inputs in, framebuffer and a one-tick `frame_done_out`
/// pulse out, everything advanced by `rising_clk_edge`.
pub struct Orchestrator {
    /// Reset the whole engine to a known state on the next tick.
    pub reset: bool,
    /// Camera position; latched at frame start.
    pub camera_pos_in: Vec3,
    /// Camera heading (need not be normalized); latched at frame start.
    pub camera_heading_in: Vec3,
    /// The frame being drawn, row-major, updated progressively as pixels
    /// retire; fully settled on the tick `frame_done_out` is high.
    pub frame_buffer_out: Vec<Rgb565>,
    /// High for exactly one tick per frame, as the final pixel retires.
    pub frame_done_out: bool,
    /// Camera position of the frame being rendered.
    pub camera_pos: Vec3,
    /// The traversal units; unit `i` owns L2 port `i`.
    pub vtus: Vec<VoxelTraversalUnit>,
    /// The shared L2 cache, which owns the L3 below it.
    pub l2: L2Cache,
    /// Index of the next pixel to dispatch; equal to `NUM_PIXELS` when the
    /// frame is complete and a new one starts on the next tick.
    pub next_pixel: usize,
    /// World-space centre of pixel (0, 0) for the current frame.
    pub pixel0_loc: Vec3,
    /// World-space step from pixel to pixel along a row.
    pub pixel_delta_u: Vec3,
    /// World-space step from row to row.
    pub pixel_delta_v: Vec3,
}

/// The sun direction before normalization: (1, -5, 2).
pub open spec fn sun_vector() -> Vec3 {
    v3_raw(0x8000, -5 * 0x8000, 2int * 0x8000)
}

/// The shading factor for a hit: `0.4 + 0.2 * (normal . sun)` with the
/// normalized sun direction, in fixed point.
pub open spec fn light_of(normal: Vec3) -> int {
    crate::fixed::fx_add(
        13107,
        crate::fixed::fx_mul(6553, v3_dot(normal, v3_normalized(sun_vector()))),
    )
}

/// The base colour of a voxel kind.
pub open spec fn base_color(b: Block) -> Rgb565 {
    match b {
        Block::Air => Rgb565 { bits: pack565(174, 200, 235) },
        Block::Water => Rgb565 { bits: pack565(52, 67, 138) },
        Block::Grass => Rgb565 { bits: pack565(90, 133, 77) },
        Block::Dirt => Rgb565 { bits: pack565(133, 96, 77) },
        Block::OakLog => Rgb565 { bits: pack565(91, 58, 42) },
        Block::OakLeaves => Rgb565 { bits: pack565(129, 165, 118) },
        _ => Rgb565 { bits: pack565(82, 70, 84) },
    }
}

/// The colour written to the framebuffer for a completed ray: the sky colour
/// untouched for a miss, otherwise the voxel's base colour scaled by the
/// directional light of the reported normal.
pub open spec fn shade_spec(voxel: Block, normal: Vec3) -> Rgb565 {
    let base = base_color(voxel);
    if voxel == Block::Air {
        base
    } else {
        let f = light_of(normal);
        Rgb565 {
            bits: pack565(
                scale_channel(base.r_spec(), f),
                scale_channel(base.g_spec(), f),
                scale_channel(base.b_spec(), f),
            ),
        }
    }
}

/// The right-handed orthonormal camera basis of a heading: `w` looks along
/// the heading, `u` spans the rows, `v` the columns.
pub open spec fn camera_w(heading: Vec3) -> Vec3 {
    v3_normalized(heading)
}

pub open spec fn camera_u(heading: Vec3) -> Vec3 {
    v3_normalized(v3_cross(v3_raw(0, 0x8000, 0), camera_w(heading)))
}

pub open spec fn camera_v(heading: Vec3) -> Vec3 {
    v3_cross(camera_w(heading), camera_u(heading))
}

/// Step from pixel to pixel along a row, for the current frame's heading.
pub open spec fn delta_u_of(heading: Vec3) -> Vec3 {
    v3_scale(camera_u(heading), PIXEL_PITCH_RAW as int)
}

/// Step from row to row (downward on the screen, so against `v`).
pub open spec fn delta_v_of(heading: Vec3) -> Vec3 {
    v3_scale(v3_neg(camera_v(heading)), PIXEL_PITCH_RAW as int)
}

/// The world-space centre of pixel (0, 0): the viewport sits one unit ahead
/// of the camera along `w`, spans `VIEWPORT_W x VIEWPORT_H`, and the first
/// pixel centre is half a pitch in from its upper-left corner.
pub open spec fn pixel0_of(cam: Vec3, heading: Vec3) -> Vec3 {
    let w = camera_w(heading);
    let u = camera_u(heading);
    let v = camera_v(heading);
    let viewport_u = v3_scale(u, VIEWPORT_W_RAW as int);
    let viewport_v = v3_scale(v3_neg(v), VIEWPORT_H_RAW as int);
    let corner = v3_sub(v3_add(cam, w), v3_scale(v3_add(viewport_u, viewport_v), 0x4000));
    v3_add(corner, v3_scale(v3_add(delta_u_of(heading), delta_v_of(heading)), 0x4000))
}

/// The world-space centre of pixel `i` (row-major).
pub open spec fn pixel_loc(p0: Vec3, du: Vec3, dv: Vec3, i: int) -> Vec3 {
    v3_add(v3_add(p0, v3_scale(du, (i % 160) * 0x8000)), v3_scale(dv, (i / 160) * 0x8000))
}

/// A unit as the orchestrator re-dispatches it: aimed from the frame's
/// camera position at the centre of pixel `pix`, with its init line raised.
pub open spec fn dispatched(
    v: VoxelTraversalUnit,
    pix: int,
    cam: Vec3,
    p0: Vec3,
    du: Vec3,
    dv: Vec3,
) -> VoxelTraversalUnit {
    VoxelTraversalUnit {
        ray_origin_in: cam,
        ray_direction_in: v3_sub(pixel_loc(p0, du, dv, pix), cam),
        ray_init_in: true,
        current_pixel: pix as usize,
        ..v
    }
}

/// The units with the reset line driven.
pub open spec fn reset_vtus(s: Seq<VoxelTraversalUnit>, r: bool) -> Seq<VoxelTraversalUnit> {
    Seq::new(s.len(), |i: int| VoxelTraversalUnit { reset: r, ..s[i] })
}

/// The units with their init lines dropped.
pub open spec fn cleared_vtus(s: Seq<VoxelTraversalUnit>) -> Seq<VoxelTraversalUnit> {
    Seq::new(s.len(), |i: int| VoxelTraversalUnit { ray_init_in: false, ..s[i] })
}

/// The units clocked one after the other against the shared L2, unit 0
/// first, each seeing the L2 as its predecessor left it.
pub open spec fn vtus_step_chain(
    pre: Seq<VoxelTraversalUnit>,
    l2pre: L2Cache,
    post: Seq<VoxelTraversalUnit>,
    l2post: L2Cache,
) -> bool
    decreases pre.len(),
{
    if pre.len() == 0 {
        post.len() == 0 && l2post == l2pre
    } else {
        &&& post.len() == pre.len()
        &&& exists|l2mid: L2Cache|
            vtu_step(pre[0], l2pre, post[0], l2mid) && vtus_step_chain(
                pre.subrange(1, pre.len() as int),
                l2mid,
                post.subrange(1, post.len() as int),
                l2post,
            )
    }
}

/// The lowest index at or above `i` of a unit whose `valid_out` is high.
pub open spec fn first_valid_from(s: Seq<VoxelTraversalUnit>, i: int) -> Option<int>
    decreases s.len() - i,
{
    if i < 0 || i >= s.len() {
        None
    } else if s[i].valid_out {
        Some(i)
    } else {
        first_valid_from(s, i + 1)
    }
}

/// The lowest-indexed unit holding a completed ray, which alone is shaded
/// and re-dispatched this tick (static priority).
pub open spec fn first_valid(s: Seq<VoxelTraversalUnit>) -> Option<int> {
    first_valid_from(s, 0)
}

/// The clock phase of one orchestrator tick: reset propagates combinationally
/// into the L2 (and the L3 below it) and every unit; then the L2, the L3 and
/// the units clock in that order, each unit driving its own L2 port.
pub open spec fn orch_clock(
    pre: Orchestrator,
    l2a: L2Cache,
    l3b: L3Cache,
    vtus_c: Seq<VoxelTraversalUnit>,
    l2c: L2Cache,
) -> bool {
    &&& l2_step(
        L2Cache { reset: pre.reset, l3: L3Cache { reset: pre.reset, ..pre.l2.l3 }, ..pre.l2 },
        l2a,
    )
    &&& l3_step(l2a.l3, l3b)
    &&& vtus_step_chain(reset_vtus(pre.vtus@, pre.reset), L2Cache { l3: l3b, ..l2a }, vtus_c, l2c)
}

/// The decision phase of one orchestrator tick, after the submodules have
/// clocked (`vtus_c` / `l2c` are their post-clock states).
///
/// On reset, the framebuffer clears and `next_pixel` parks at `NUM_PIXELS`
/// so the next plain tick starts a frame. A frame-start tick latches the
/// camera, computes the per-frame basis, and dispatches every unit to pixel
/// 0. A steady tick drops the init lines and, for the lowest-indexed unit
/// holding a completed ray, shades that ray's pixel and re-dispatches the
/// unit to the next pixel; `frame_done_out` rises exactly when that pixel
/// was the frame's last.
pub open spec fn orch_logic(
    pre: Orchestrator,
    vtus_c: Seq<VoxelTraversalUnit>,
    l2c: L2Cache,
    post: Orchestrator,
) -> bool {
    &&& post.reset == pre.reset
    &&& post.camera_pos_in == pre.camera_pos_in
    &&& post.camera_heading_in == pre.camera_heading_in
    &&& post.l2 == l2c
    &&& if pre.reset {
        &&& post.frame_buffer_out@.len() == NUM_PIXELS
        &&& forall|j: int| 0 <= j < NUM_PIXELS ==> post.frame_buffer_out@[j] == (Rgb565 { bits: 0 })
        &&& !post.frame_done_out
        &&& post.camera_pos == v3_raw(0, 0, 0)
        &&& post.next_pixel == NUM_PIXELS
        &&& post.pixel0_loc == v3_raw(0, 0, 0)
        &&& post.pixel_delta_u == v3_raw(0, 0, 0)
        &&& post.pixel_delta_v == v3_raw(0, 0, 0)
        &&& post.vtus@ == vtus_c
    } else if pre.next_pixel == NUM_PIXELS {
        let heading = pre.camera_heading_in;
        let cam = pre.camera_pos_in;
        let p0 = pixel0_of(cam, heading);
        let du = delta_u_of(heading);
        let dv = delta_v_of(heading);
        &&& post.frame_buffer_out == pre.frame_buffer_out
        &&& !post.frame_done_out
        &&& post.camera_pos == cam
        &&& post.next_pixel == 0
        &&& post.pixel0_loc == p0
        &&& post.pixel_delta_u == du
        &&& post.pixel_delta_v == dv
        &&& post.vtus@.len() == vtus_c.len()
        &&& forall|i: int|
            0 <= i < vtus_c.len() ==> post.vtus@[i] == dispatched(vtus_c[i], 0, cam, p0, du, dv)
    } else {
        let vtus_m = cleared_vtus(vtus_c);
        &&& post.camera_pos == pre.camera_pos
        &&& post.pixel0_loc == pre.pixel0_loc
        &&& post.pixel_delta_u == pre.pixel_delta_u
        &&& post.pixel_delta_v == pre.pixel_delta_v
        &&& match first_valid(vtus_m) {
            None => {
                &&& post.vtus@ == vtus_m
                &&& post.frame_buffer_out == pre.frame_buffer_out
                &&& post.next_pixel == pre.next_pixel
                &&& !post.frame_done_out
            },
            Some(k) => {
                let done = vtus_m[k];
                let np = pre.next_pixel + 1;
                &&& post.next_pixel == np
                &&& post.frame_done_out == (np == NUM_PIXELS)
                &&& post.frame_buffer_out@ == pre.frame_buffer_out@.update(
                    done.current_pixel as int,
                    shade_spec(done.voxel_out, done.normal_out),
                )
                &&& post.vtus@ == vtus_m.update(
                    k,
                    dispatched(done, np as int, pre.camera_pos, pre.pixel0_loc, pre.pixel_delta_u, pre.pixel_delta_v),
                )
            },
        }
    }
}

/// How one rising clock edge transforms the whole engine: some submodule
/// states `l2a`, `l3b`, `vtus_c`, `l2c` witness the clock phase, and the
/// decision phase follows from them. Kept opaque so that reasoning over
/// whole traces stays tractable; `lemma_orch_step_intro` and the laws
/// below reveal it where its content is needed.
#[verifier::opaque]
pub open spec fn orch_step(pre: Orchestrator, post: Orchestrator) -> bool {
    exists|l2a: L2Cache, l3b: L3Cache, vtus_c: Seq<VoxelTraversalUnit>, l2c: L2Cache|
        orch_clock(pre, l2a, l3b, vtus_c, l2c) && orch_logic(pre, vtus_c, l2c, post)
}

/// Shade one completed ray: the sky colour for a miss, otherwise the voxel's
/// base colour lit by the sun.
pub fn shade(voxel: Block, normal: Vec3) -> (c: Rgb565)
    ensures
        c == shade_spec(voxel, normal),
{
    let base = match voxel {
        Block::Air => Rgb565::new(174, 200, 235),
        Block::Water => Rgb565::new(52, 67, 138),
        Block::Grass => Rgb565::new(90, 133, 77),
        Block::Dirt => Rgb565::new(133, 96, 77),
        Block::OakLog => Rgb565::new(91, 58, 42),
        Block::OakLeaves => Rgb565::new(129, 165, 118),
        _ => Rgb565::new(82, 70, 84),
    };
    if voxel.is_air() {
        return base;
    }
    let sun = Vec3 {
        x: Fixed::from_int(1),
        y: Fixed::from_int(-5),
        z: Fixed::from_int(2),
    };
    let light = Fixed::from_raw(13107).add(Fixed::from_raw(6553).mul(normal.dot(sun.normalized())));
    base.scale(light)
}

} // verus!

verus! {

/// Extends a clocked chain by one more unit at its end.
proof fn lemma_chain_snoc(
    pre: Seq<VoxelTraversalUnit>,
    l2a: L2Cache,
    post: Seq<VoxelTraversalUnit>,
    l2b: L2Cache,
    vp: VoxelTraversalUnit,
    vq: VoxelTraversalUnit,
    l2c: L2Cache,
)
    requires
        vtus_step_chain(pre, l2a, post, l2b),
        vtu_step(vp, l2b, vq, l2c),
    ensures
        vtus_step_chain(pre.push(vp), l2a, post.push(vq), l2c),
    decreases pre.len(),
{
    if pre.len() == 0 {
        assert(pre.push(vp).subrange(1, 1) =~= Seq::<VoxelTraversalUnit>::empty());
        assert(post.push(vq).subrange(1, 1) =~= Seq::<VoxelTraversalUnit>::empty());
        assert(vtu_step(pre.push(vp)[0], l2a, post.push(vq)[0], l2c));
        assert(vtus_step_chain(
            pre.push(vp).subrange(1, 1),
            l2c,
            post.push(vq).subrange(1, 1),
            l2c,
        ));
    } else {
        let l2mid = choose|l2mid: L2Cache|
            vtu_step(pre[0], l2a, post[0], l2mid) && vtus_step_chain(
                pre.subrange(1, pre.len() as int),
                l2mid,
                post.subrange(1, post.len() as int),
                l2b,
            );
        lemma_chain_snoc(
            pre.subrange(1, pre.len() as int),
            l2mid,
            post.subrange(1, post.len() as int),
            l2b,
            vp,
            vq,
            l2c,
        );
        assert(pre.push(vp).subrange(1, pre.len() as int + 1) =~= pre.subrange(
            1,
            pre.len() as int,
        ).push(vp));
        assert(post.push(vq).subrange(1, post.len() as int + 1) =~= post.subrange(
            1,
            post.len() as int,
        ).push(vq));
        assert(vtu_step(pre.push(vp)[0], l2a, post.push(vq)[0], l2mid));
    }
}

/// If every unit below `m` is idle and `m` holds a completed ray, the scan
/// from any index at or below `m` picks `m`.
proof fn lemma_first_valid_found(s: Seq<VoxelTraversalUnit>, k: int, m: int)
    requires
        0 <= k <= m < s.len(),
        s[m].valid_out,
        forall|j: int| 0 <= j < m ==> !s[j].valid_out,
    ensures
        first_valid_from(s, k) == Some(m),
    decreases m - k,
{
    if k < m {
        lemma_first_valid_found(s, k + 1, m);
    }
}

/// If no unit holds a completed ray, the scan finds none.
proof fn lemma_first_valid_none(s: Seq<VoxelTraversalUnit>, k: int)
    requires
        0 <= k,
        forall|j: int| 0 <= j < s.len() ==> !s[j].valid_out,
    ensures
        first_valid_from(s, k) is None,
    decreases s.len() - k,
{
    if k < s.len() {
        lemma_first_valid_none(s, k + 1);
    }
}

impl Orchestrator {
    /// The framebuffer covers the frame, the pixel cursor is in range, each
    /// unit owns the L2 port of its own index, a unit parked past the last
    /// pixel can only exist while the frame is complete, and the cache
    /// hierarchy is well-formed with one port per unit.
    pub open spec fn wf(self) -> bool {
        &&& self.frame_buffer_out@.len() == NUM_PIXELS
        &&& self.next_pixel <= NUM_PIXELS
        &&& self.vtus@.len() == self.l2.ports()
        &&& forall|i: int|
            0 <= i < self.vtus@.len() ==> (#[trigger] self.vtus@[i]).port == i
        &&& forall|i: int| 0 <= i < self.vtus@.len() ==> (#[trigger] self.vtus@[i]).wf()
        &&& forall|i: int|
            0 <= i < self.vtus@.len() ==> (#[trigger] self.vtus@[i]).current_pixel <= NUM_PIXELS
        &&& forall|i: int|
            0 <= i < self.vtus@.len() ==> ((#[trigger] self.vtus@[i]).current_pixel == NUM_PIXELS
                ==> self.next_pixel == NUM_PIXELS)
        &&& self.l2.wf()
    }

    /// A quiescent engine over the given chunk store, parked so that the
    /// first plain tick starts a frame.
    pub fn new(chunk: MockCache) -> (r: Orchestrator)
        requires
            chunk.wf(),
        ensures
            r.wf(),
            !r.reset,
            r.camera_pos_in == v3_raw(0, 0, 0),
            r.camera_heading_in == v3_raw(0, 0, 0x8000),
            r.frame_buffer_out@.len() == NUM_PIXELS,
            forall|j: int| 0 <= j < NUM_PIXELS ==> r.frame_buffer_out@[j] == (Rgb565 { bits: 0 }),
            !r.frame_done_out,
            r.next_pixel == NUM_PIXELS,
            r.vtus@.len() == NUM_VTU,
            r.l2.entries@.len() == NUM_L2_ENTRIES,
            forall|i: int| 0 <= i < NUM_L2_ENTRIES ==> r.l2.entries@[i] is None,
            r.l2.l3.ddr_ram == chunk,
            r.l2.accesses == 0,
            r.l2.hits == 0,
    {
        let l3 = L3Cache::new(chunk);
        let l2 = L2Cache::new(NUM_VTU, NUM_L2_ENTRIES, l3);
        let mut vtus: Vec<VoxelTraversalUnit> = Vec::new();
        let mut i: usize = 0;
        while i < NUM_VTU
            invariant
                i <= NUM_VTU,
                vtus@.len() == i,
                forall|j: int|
                    0 <= j < i ==> (#[trigger] vtus@[j]).port == j && vtus@[j].wf()
                        && vtus@[j].current_pixel == 0,
            decreases NUM_VTU - i,
        {
            vtus.push(VoxelTraversalUnit::new(i));
            i = i + 1;
        }
        Orchestrator {
            reset: false,
            camera_pos_in: Vec3::zero(),
            camera_heading_in: Vec3::forward(),
            frame_buffer_out: vec![Rgb565 { bits: 0 }; NUM_PIXELS],
            frame_done_out: false,
            camera_pos: Vec3::zero(),
            vtus,
            l2,
            next_pixel: NUM_PIXELS,
            pixel0_loc: Vec3::zero(),
            pixel_delta_u: Vec3::zero(),
            pixel_delta_v: Vec3::zero(),
        }
    }
}

} // verus!

verus! {

impl Orchestrator {
    /// The clock phase of a tick: propagate reset combinationally, then
    /// clock the L2, the L3 and every traversal unit, unit 0 first. Returns
    /// the intermediate cache states as witnesses for `orch_clock`.
    fn clock_submodules(&mut self) -> (w: Ghost<(L2Cache, L3Cache)>)
        requires
            old(self).wf(),
        ensures
            orch_clock(*old(self), w@.0, w@.1, final(self).vtus@, final(self).l2),
            final(self).vtus@.len() == old(self).vtus@.len(),
            final(self).l2.wf(),
            final(self).l2.ports() == old(self).l2.ports(),
            forall|j: int| 0 <= j < final(self).vtus@.len() ==> (#[trigger] final(self).vtus@[j]).wf(),
            forall|j: int|
                0 <= j < final(self).vtus@.len() ==> (#[trigger] final(self).vtus@[j]).port == j,
            forall|j: int|
                0 <= j < final(self).vtus@.len() ==> (#[trigger] final(self).vtus@[j]).current_pixel
                    == old(self).vtus@[j].current_pixel,
            final(self).reset == old(self).reset,
            final(self).camera_pos_in == old(self).camera_pos_in,
            final(self).camera_heading_in == old(self).camera_heading_in,
            final(self).camera_pos == old(self).camera_pos,
            final(self).frame_buffer_out == old(self).frame_buffer_out,
            final(self).frame_done_out == old(self).frame_done_out,
            final(self).next_pixel == old(self).next_pixel,
            final(self).pixel0_loc == old(self).pixel0_loc,
            final(self).pixel_delta_u == old(self).pixel_delta_u,
            final(self).pixel_delta_v == old(self).pixel_delta_v,
    {
        let ghost pre = *old(self);

        // Propagate reset combinationally into the caches, then clock them.
        self.l2.reset = self.reset;
        self.l2.l3.reset = self.reset;
        self.l2.rising_clk_edge();
        let ghost l2a = self.l2;
        self.l2.l3.rising_clk_edge();
        let ghost l3b = self.l2.l3;
        let ghost l2b = self.l2;

        // Clock each traversal unit against the shared L2, unit 0 first.
        let n = self.vtus.len();
        let mut i: usize = 0;
        while i < n
            invariant
                pre.wf(),
                n == pre.vtus@.len(),
                self.vtus@.len() == n,
                i <= n,
                self.l2.wf(),
                self.l2.ports() == n,
                forall|j: int| i <= j < n ==> self.vtus@[j] == pre.vtus@[j],
                vtus_step_chain(
                    reset_vtus(pre.vtus@, pre.reset).take(i as int),
                    l2b,
                    self.vtus@.take(i as int),
                    self.l2,
                ),
                forall|j: int| 0 <= j < i ==> (#[trigger] self.vtus@[j]).wf(),
                forall|j: int| 0 <= j < i ==> (#[trigger] self.vtus@[j]).port == j,
                forall|j: int|
                    0 <= j < i ==> (#[trigger] self.vtus@[j]).current_pixel
                        == pre.vtus@[j].current_pixel,
                self.reset == pre.reset,
                self.camera_pos_in == pre.camera_pos_in,
                self.camera_heading_in == pre.camera_heading_in,
                self.camera_pos == pre.camera_pos,
                self.frame_buffer_out == pre.frame_buffer_out,
                self.frame_done_out == pre.frame_done_out,
                self.next_pixel == pre.next_pixel,
                self.pixel0_loc == pre.pixel0_loc,
                self.pixel_delta_u == pre.pixel_delta_u,
                self.pixel_delta_v == pre.pixel_delta_v,
            decreases n - i,
        {
            let ghost vs0 = self.vtus@;
            let ghost l2s0 = self.l2;
            let mut u = self.vtus[i];
            u.reset = self.reset;
            proof {
                assert(u == reset_vtus(pre.vtus@, pre.reset)[i as int]);
            }
            u.rising_clk_edge(&mut self.l2);
            self.vtus[i] = u;
            proof {
                lemma_chain_snoc(
                    reset_vtus(pre.vtus@, pre.reset).take(i as int),
                    l2b,
                    vs0.take(i as int),
                    l2s0,
                    reset_vtus(pre.vtus@, pre.reset)[i as int],
                    u,
                    self.l2,
                );
                assert(reset_vtus(pre.vtus@, pre.reset).take(i + 1) =~= reset_vtus(
                    pre.vtus@,
                    pre.reset,
                ).take(i as int).push(reset_vtus(pre.vtus@, pre.reset)[i as int]));
                assert(self.vtus@.take(i + 1) =~= vs0.take(i as int).push(u));
            }
            i = i + 1;
        }
        proof {
            assert(reset_vtus(pre.vtus@, pre.reset).take(n as int) =~= reset_vtus(
                pre.vtus@,
                pre.reset,
            ));
            assert(self.vtus@.take(n as int) =~= self.vtus@);
        }
        Ghost((l2a, l3b))
    }
    /// The decision phase of a reset tick: clear the framebuffer and park
    /// the pixel cursor so the next plain tick starts a frame.
    fn logic_reset(&mut self, Ghost(pre): Ghost<Orchestrator>)
        requires
            pre.reset,
            pre.wf(),
            old(self).reset == pre.reset,
            old(self).camera_pos_in == pre.camera_pos_in,
            old(self).camera_heading_in == pre.camera_heading_in,
            old(self).vtus@.len() == pre.vtus@.len(),
            old(self).l2.wf(),
            old(self).l2.ports() == old(self).vtus@.len(),
            forall|j: int| 0 <= j < old(self).vtus@.len() ==> (#[trigger] old(self).vtus@[j]).wf(),
            forall|j: int|
                0 <= j < old(self).vtus@.len() ==> (#[trigger] old(self).vtus@[j]).port == j,
            forall|j: int|
                0 <= j < old(self).vtus@.len() ==> (#[trigger] old(self).vtus@[j]).current_pixel
                    == pre.vtus@[j].current_pixel,
        ensures
            final(self).wf(),
            orch_logic(pre, old(self).vtus@, old(self).l2, *final(self)),
    {
        self.frame_buffer_out = vec![Rgb565 { bits: 0 }; NUM_PIXELS];
        self.frame_done_out = false;
        self.camera_pos = Vec3::zero();
        self.next_pixel = NUM_PIXELS;
        self.pixel0_loc = Vec3::zero();
        self.pixel_delta_u = Vec3::zero();
        self.pixel_delta_v = Vec3::zero();
    }

    /// The decision phase of a frame-start tick: latch the camera, compute
    /// the per-frame basis, and dispatch every unit to pixel 0.
    #[verifier::rlimit(100)]
    fn logic_frame_start(&mut self, Ghost(pre): Ghost<Orchestrator>)
        requires
            !pre.reset,
            pre.next_pixel == NUM_PIXELS,
            pre.wf(),
            old(self).reset == pre.reset,
            old(self).camera_pos_in == pre.camera_pos_in,
            old(self).camera_heading_in == pre.camera_heading_in,
            old(self).frame_buffer_out == pre.frame_buffer_out,
            old(self).next_pixel == pre.next_pixel,
            old(self).frame_buffer_out@.len() == NUM_PIXELS,
            old(self).vtus@.len() == pre.vtus@.len(),
            old(self).l2.wf(),
            old(self).l2.ports() == old(self).vtus@.len(),
            forall|j: int| 0 <= j < old(self).vtus@.len() ==> (#[trigger] old(self).vtus@[j]).wf(),
            forall|j: int|
                0 <= j < old(self).vtus@.len() ==> (#[trigger] old(self).vtus@[j]).port == j,
        ensures
            final(self).wf(),
            orch_logic(pre, old(self).vtus@, old(self).l2, *final(self)),
    {
        let ghost vtus_c = self.vtus@;
        let n = self.vtus.len();
        self.frame_done_out = false;
        self.next_pixel = 0;
        self.camera_pos = self.camera_pos_in;
        let w = self.camera_heading_in.normalized();
        let u = Vec3::up().cross(w).normalized();
        let v = w.cross(u);
        let viewport_u = u.scale(Fixed::from_raw(VIEWPORT_W_RAW));
        let viewport_v = v.neg().scale(Fixed::from_raw(VIEWPORT_H_RAW));
        self.pixel_delta_u = u.scale(Fixed::from_raw(PIXEL_PITCH_RAW));
        self.pixel_delta_v = v.neg().scale(Fixed::from_raw(PIXEL_PITCH_RAW));
        let corner = self.camera_pos_in.add(w).sub(
            viewport_u.add(viewport_v).scale(Fixed::from_raw(0x4000)),
        );
        self.pixel0_loc = corner.add(
            self.pixel_delta_u.add(self.pixel_delta_v).scale(Fixed::from_raw(0x4000)),
        );
        let ghost p0 = self.pixel0_loc;
        let ghost du = self.pixel_delta_u;
        let ghost dv = self.pixel_delta_v;
        proof {
            assert(p0 == pixel0_of(pre.camera_pos_in, pre.camera_heading_in));
            assert(pixel_loc(p0, du, dv, 0) == p0);
        }
        let dir = self.pixel0_loc.sub(self.camera_pos_in);
        let mut j: usize = 0;
        while j < n
            invariant
                n == vtus_c.len(),
                self.vtus@.len() == n,
                j <= n,
                dir == v3_sub(pixel_loc(p0, du, dv, 0), pre.camera_pos_in),
                self.reset == pre.reset,
                self.camera_pos_in == pre.camera_pos_in,
                self.camera_heading_in == pre.camera_heading_in,
                self.camera_pos == pre.camera_pos_in,
                self.l2 == old(self).l2,
                self.frame_buffer_out == pre.frame_buffer_out,
                !self.frame_done_out,
                self.next_pixel == 0,
                self.pixel0_loc == p0,
                self.pixel_delta_u == du,
                self.pixel_delta_v == dv,
                forall|m: int| j <= m < n ==> self.vtus@[m] == vtus_c[m],
                forall|m: int|
                    0 <= m < j ==> self.vtus@[m] == dispatched(
                        vtus_c[m],
                        0,
                        pre.camera_pos_in,
                        p0,
                        du,
                        dv,
                    ),
            decreases n - j,
        {
            let mut u2 = self.vtus[j];
            u2.ray_direction_in = dir;
            u2.ray_origin_in = self.camera_pos_in;
            u2.ray_init_in = true;
            u2.current_pixel = 0;
            self.vtus[j] = u2;
            j = j + 1;
        }
    }

    /// The decision phase of a steady tick: drop every init line, then shade
    /// and re-dispatch the lowest-indexed unit holding a completed ray;
    /// `frame_done_out` rises exactly when that ray's pixel was the frame's
    /// last.
    #[verifier::rlimit(100)]
    fn logic_steady(&mut self, Ghost(pre): Ghost<Orchestrator>)
        requires
            !pre.reset,
            pre.next_pixel < NUM_PIXELS,
            pre.wf(),
            old(self).reset == pre.reset,
            old(self).camera_pos_in == pre.camera_pos_in,
            old(self).camera_heading_in == pre.camera_heading_in,
            old(self).camera_pos == pre.camera_pos,
            old(self).frame_buffer_out == pre.frame_buffer_out,
            old(self).next_pixel == pre.next_pixel,
            old(self).pixel0_loc == pre.pixel0_loc,
            old(self).pixel_delta_u == pre.pixel_delta_u,
            old(self).pixel_delta_v == pre.pixel_delta_v,
            old(self).frame_buffer_out@.len() == NUM_PIXELS,
            old(self).vtus@.len() == pre.vtus@.len(),
            old(self).l2.wf(),
            old(self).l2.ports() == old(self).vtus@.len(),
            forall|j: int| 0 <= j < old(self).vtus@.len() ==> (#[trigger] old(self).vtus@[j]).wf(),
            forall|j: int|
                0 <= j < old(self).vtus@.len() ==> (#[trigger] old(self).vtus@[j]).port == j,
            forall|j: int|
                0 <= j < old(self).vtus@.len() ==> (#[trigger] old(self).vtus@[j]).current_pixel
                    == pre.vtus@[j].current_pixel,
        ensures
            final(self).wf(),
            orch_logic(pre, old(self).vtus@, old(self).l2, *final(self)),
    {
        let ghost vtus_c = self.vtus@;
        let n = self.vtus.len();
        self.frame_done_out = false;
        let mut j: usize = 0;
        while j < n
            invariant
                n == vtus_c.len(),
                self.vtus@.len() == n,
                j <= n,
                self.reset == pre.reset,
                self.camera_pos_in == pre.camera_pos_in,
                self.camera_heading_in == pre.camera_heading_in,
                self.camera_pos == pre.camera_pos,
                self.l2 == old(self).l2,
                self.frame_buffer_out == pre.frame_buffer_out,
                !self.frame_done_out,
                self.next_pixel == pre.next_pixel,
                self.pixel0_loc == pre.pixel0_loc,
                self.pixel_delta_u == pre.pixel_delta_u,
                self.pixel_delta_v == pre.pixel_delta_v,
                forall|m: int| j <= m < n ==> self.vtus@[m] == vtus_c[m],
                forall|m: int| 0 <= m < j ==> self.vtus@[m] == cleared_vtus(vtus_c)[m],
            decreases n - j,
        {
            let mut u2 = self.vtus[j];
            u2.ray_init_in = false;
            self.vtus[j] = u2;
            j = j + 1;
        }
        proof {
            assert(self.vtus@ =~= cleared_vtus(vtus_c));
        }
        let ghost vtus_m = cleared_vtus(vtus_c);

        // Static-priority scan for a completed ray.
        let mut winner: Option<usize> = None;
        let mut k: usize = 0;
        while k < n && winner.is_none()
            invariant
                n == vtus_m.len(),
                self.vtus@ == vtus_m,
                k <= n,
                forall|m: int| 0 <= m < k ==> !vtus_m[m].valid_out,
                match winner {
                    Some(m) => m == k && k < n && vtus_m[k as int].valid_out,
                    None => true,
                },
            decreases n - k + (if winner is None { 1int } else { 0int }),
        {
            if self.vtus[k].valid_out {
                winner = Some(k);
            } else {
                k = k + 1;
            }
        }
        match winner {
            None => {
                proof {
                    lemma_first_valid_none(vtus_m, 0);
                }
            },
            Some(m) => {
                proof {
                    lemma_first_valid_found(vtus_m, 0, m as int);
                }
                let done = self.vtus[m];
                let color = shade(done.voxel_out, done.normal_out);
                proof {
                    assert(done == vtus_m[m as int]);
                    assert(vtus_m[m as int].current_pixel == vtus_c[m as int].current_pixel);
                    assert(old(self).vtus@[m as int].current_pixel == pre.vtus@[
                        m as int
                    ].current_pixel);
                    assert(pre.vtus@[m as int].current_pixel <= NUM_PIXELS);
                    assert(pre.vtus@[m as int].current_pixel == NUM_PIXELS ==> pre.next_pixel
                        == NUM_PIXELS);
                    assert(done.current_pixel < NUM_PIXELS);
                    assert(self.frame_buffer_out@.len() == NUM_PIXELS);
                }
                self.frame_buffer_out[done.current_pixel] = color;
                self.next_pixel = self.next_pixel + 1;
                let np = self.next_pixel;
                self.frame_done_out = np == NUM_PIXELS;
                proof {
                    assert(np <= NUM_PIXELS);
                }
                let x = (np % FRAME_WIDTH) as i32;
                let y = (np / FRAME_WIDTH) as i32;
                let ploc = self.pixel0_loc.add(self.pixel_delta_u.scale(Fixed::from_int(x))).add(
                    self.pixel_delta_v.scale(Fixed::from_int(y)),
                );
                let mut u2 = done;
                u2.ray_direction_in = ploc.sub(self.camera_pos);
                u2.ray_origin_in = self.camera_pos;
                u2.ray_init_in = true;
                u2.current_pixel = np;
                self.vtus[m] = u2;
                proof {
                    assert(ploc == pixel_loc(
                        pre.pixel0_loc,
                        pre.pixel_delta_u,
                        pre.pixel_delta_v,
                        np as int,
                    ));
                }
            },
        }
    }

    /// Advance the whole engine by one clock cycle: propagate reset, clock
    /// the L2, the L3 and every traversal unit, then run the per-tick
    /// orchestration (reset / frame start / shade-and-dispatch).
    pub fn rising_clk_edge(&mut self)
        requires
            old(self).wf(),
        ensures
            final(self).wf(),
            orch_step(*old(self), *final(self)),
    {
        let ghost pre = *old(self);
        let w = self.clock_submodules();
        let ghost l2a = w@.0;
        let ghost l3b = w@.1;
        let ghost vtus_c = self.vtus@;
        let ghost l2c = self.l2;

        if self.reset {
            self.logic_reset(Ghost(pre));
        } else if self.next_pixel == NUM_PIXELS {
            self.logic_frame_start(Ghost(pre));
        } else {
            self.logic_steady(Ghost(pre));
        }
        proof {
            lemma_orch_step_intro(pre, l2a, l3b, vtus_c, l2c, *self);
        }
    }
}

/// Introduces the witnesses of one tick into `orch_step`.
proof fn lemma_orch_step_intro(
    pre: Orchestrator,
    l2a: L2Cache,
    l3b: L3Cache,
    vtus_c: Seq<VoxelTraversalUnit>,
    l2c: L2Cache,
    post: Orchestrator,
)
    requires
        orch_clock(pre, l2a, l3b, vtus_c, l2c),
        orch_logic(pre, vtus_c, l2c, post),
    ensures
        orch_step(pre, post),
{
    reveal(orch_step);
}

} // verus!
verus! {

/// The DDA set-up registers a cast computes for a given origin and
/// direction, independent of any other unit state. Kept opaque so the
/// per-pixel reasoning does not re-open the whole init datapath; the one
/// place that needs its content reveals it.
#[verifier::opaque]
pub open spec fn cast_base(origin: Vec3, dir: Vec3) -> VoxelTraversalUnit {
    crate::vtu::vtu_init_state(
        VoxelTraversalUnit {
            reset: false,
            ray_origin_in: origin,
            ray_direction_in: dir,
            ray_init_in: false,
            voxel_out: Block::Air,
            normal_out: v3_raw(0, 0, 0),
            valid_out: false,
            current_pixel: 0,
            port: 0,
            ray_direction: v3_raw(0, 0, 0),
            ray_position: crate::vec3i::Vec3i { x: 0, y: 0, z: 0 },
            ray_step: crate::vec3i::Vec3i { x: 0, y: 0, z: 0 },
            ray_t_delta: v3_raw(0, 0, 0),
            ray_dist: v3_raw(0, 0, 0),
            ray_t_max: v3_raw(0, 0, 0),
            num_steps: 0,
            last_step: crate::vtu::Axis::Unset,
        },
    )
}

/// What an instant cast from `origin` along `dir` yields against a chunk.
pub open spec fn cast_of(blocks: Seq<Block>, origin: Vec3, dir: Vec3) -> Option<
    (Block, crate::vtu::Axis),
> {
    let u = cast_base(origin, dir);
    crate::vtu::mock_cast_hit(
        blocks,
        u.ray_position,
        u.ray_step,
        u.ray_t_delta,
        u.ray_t_max,
        crate::vtu::Axis::Unset,
        (crate::vtu::MOCK_MAX_STEPS + 1) as nat,
    )
}

/// The ray of pixel `i` in an instant render from the given camera.
pub open spec fn mock_dir(cam: Vec3, heading: Vec3, i: int) -> Vec3 {
    v3_sub(
        pixel_loc(pixel0_of(cam, heading), delta_u_of(heading), delta_v_of(heading), i),
        cam,
    )
}

/// The voxel an instant cast reports: the first non-empty block met, `Air`
/// for any miss.
pub open spec fn mock_voxel(blocks: Seq<Block>, cam: Vec3, dir: Vec3) -> Block {
    match cast_of(blocks, cam, dir) {
        Some(p) => p.0,
        None => Block::Air,
    }
}

/// The normal register after an instant cast: the entry face's normal on a
/// hit, the previous value on a miss (the cast writes it only on a hit).
pub open spec fn mock_hit_normal(blocks: Seq<Block>, cam: Vec3, dir: Vec3, prev: Vec3) -> Vec3 {
    match cast_of(blocks, cam, dir) {
        Some(p) => crate::vtu::vtu_normal(cast_base(cam, dir).ray_step, p.1),
        None => prev,
    }
}

/// The instant render's palette: sky for a miss, the water colour for
/// `Water`, and one fallback colour for every other voxel kind, the two
/// latter lit channel by channel. It is coarser than the clocked path's
/// `shade_spec` on purpose: the instant render is a quick reference image.
pub open spec fn mock_palette(b: Block, light: int) -> Rgb565 {
    match b {
        Block::Air => Rgb565 { bits: pack565(174, 200, 235) },
        Block::Water => Rgb565 {
            bits: pack565(
                scale_channel(52, light),
                scale_channel(67, light),
                scale_channel(138, light),
            ),
        },
        _ => Rgb565 {
            bits: pack565(
                scale_channel(98, light),
                scale_channel(168, light),
                scale_channel(98, light),
            ),
        },
    }
}

/// The unit's normal register after the instant render has cast pixels 0
/// through `i`, starting from `n0`: each hit overwrites it, each miss keeps
/// it.
pub open spec fn mock_normal(
    n0: Vec3,
    blocks: Seq<Block>,
    cam: Vec3,
    heading: Vec3,
    i: int,
) -> Vec3
    decreases i,
{
    let prev = if i <= 0 {
        n0
    } else {
        mock_normal(n0, blocks, cam, heading, i - 1)
    };
    mock_hit_normal(blocks, cam, mock_dir(cam, heading, i), prev)
}

/// The colour of pixel `i` in an instant render: the palette for that
/// pixel's cast, lit by the normal the unit held *before* the cast — the
/// previous pixel's hit normal, or `n0` for the very first pixel — exactly
/// as the instant datapath samples its light one cast late.
pub open spec fn mock_pixel(
    n0: Vec3,
    blocks: Seq<Block>,
    cam: Vec3,
    heading: Vec3,
    i: int,
) -> Rgb565 {
    let prev = if i <= 0 {
        n0
    } else {
        mock_normal(n0, blocks, cam, heading, i - 1)
    };
    mock_palette(mock_voxel(blocks, cam, mock_dir(cam, heading, i)), light_of(prev))
}

/// The whole unit after the instant render has cast pixels 0 through `i`:
/// its inputs hold pixel `i`'s ray, its outputs the cast's result, the
/// normal threading through misses.
pub open spec fn mock_unit_state(
    v0: VoxelTraversalUnit,
    blocks: Seq<Block>,
    cam: Vec3,
    heading: Vec3,
    i: int,
) -> VoxelTraversalUnit {
    let dir = mock_dir(cam, heading, i);
    VoxelTraversalUnit {
        voxel_out: mock_voxel(blocks, cam, dir),
        valid_out: true,
        normal_out: mock_normal(v0.normal_out, blocks, cam, heading, i),
        ray_origin_in: cam,
        ray_direction_in: dir,
        ..v0
    }
}

/// Casting pixel `i` from the unit state after pixel `i - 1` (or from the
/// initial state for pixel 0) lands exactly on the state after pixel `i`.
proof fn lemma_unit_state_step(
    v0: VoxelTraversalUnit,
    u_prev: VoxelTraversalUnit,
    u_now: VoxelTraversalUnit,
    blocks: Seq<Block>,
    cam: Vec3,
    heading: Vec3,
    i: int,
)
    requires
        0 <= i,
        i == 0 ==> u_prev == v0,
        i > 0 ==> u_prev == mock_unit_state(v0, blocks, cam, heading, i - 1),
        u_now == (VoxelTraversalUnit {
            voxel_out: mock_voxel(blocks, cam, mock_dir(cam, heading, i)),
            valid_out: true,
            normal_out: mock_hit_normal(
                blocks,
                cam,
                mock_dir(cam, heading, i),
                u_prev.normal_out,
            ),
            ray_origin_in: cam,
            ray_direction_in: mock_dir(cam, heading, i),
            ..u_prev
        }),
    ensures
        u_now == mock_unit_state(v0, blocks, cam, heading, i),
{
}

/// A colour computed from pixel `i`'s cast and the pre-cast normal is that
/// pixel's colour.
proof fn lemma_pixel_step(
    n0: Vec3,
    prev: Vec3,
    blocks: Seq<Block>,
    cam: Vec3,
    heading: Vec3,
    i: int,
    c: Rgb565,
)
    requires
        0 <= i,
        prev == if i == 0 {
            n0
        } else {
            mock_normal(n0, blocks, cam, heading, i - 1)
        },
        c == mock_palette(mock_voxel(blocks, cam, mock_dir(cam, heading, i)), light_of(prev)),
    ensures
        c == mock_pixel(n0, blocks, cam, heading, i),
{
}

/// Cast one pixel's ray instantly through a traversal unit and colour it
/// with the instant palette, lit by the normal the unit held on entry.
fn cast_pixel(u: &mut VoxelTraversalUnit, cache: &MockCache, cam: Vec3, dir: Vec3) -> (c: Rgb565)
    requires
        cache.wf(),
    ensures
        *final(u) == (VoxelTraversalUnit {
            voxel_out: mock_voxel(cache.blocks(), cam, dir),
            valid_out: true,
            normal_out: mock_hit_normal(cache.blocks(), cam, dir, old(u).normal_out),
            ray_origin_in: cam,
            ray_direction_in: dir,
            ..*old(u)
        }),
        c == mock_palette(mock_voxel(cache.blocks(), cam, dir), light_of(old(u).normal_out)),
{
    // The light is sampled from the normal of the *previous* cast, before
    // this pixel's ray runs.
    let sun = Vec3 {
        x: Fixed::from_int(1),
        y: Fixed::from_int(-5),
        z: Fixed::from_int(2),
    };
    let light = Fixed::from_raw(13107).add(
        Fixed::from_raw(6553).mul(u.normal_out.dot(sun.normalized())),
    );
    u.ray_origin_in = cam;
    u.ray_direction_in = dir;
    let ghost u_before = *u;
    u.mock_cast(cache);
    proof {
        reveal(cast_base);
        let base = cast_base(cam, dir);
        let init = crate::vtu::vtu_init_state(u_before);
        assert(init.ray_position == base.ray_position && init.ray_step == base.ray_step
            && init.ray_t_delta == base.ray_t_delta && init.ray_t_max == base.ray_t_max);
    }
    match u.voxel_out {
        Block::Air => Rgb565::new(174, 200, 235),
        Block::Water => Rgb565::new(
            Rgb565::scale_one(52, light),
            Rgb565::scale_one(67, light),
            Rgb565::scale_one(138, light),
        ),
        _ => Rgb565::new(
            Rgb565::scale_one(98, light),
            Rgb565::scale_one(168, light),
            Rgb565::scale_one(98, light),
        ),
    }
}

impl Orchestrator {
    /// Render a whole frame instantly (and unparallelized) through unit 0,
    /// bypassing the clock and the cache hierarchy: every pixel's ray is
    /// cast against the backing chunk store and coloured with the instant
    /// palette (sky / lit water / one lit fallback colour), the light
    /// sampled from the unit's normal register one cast late.
    /// `frame_done_out` toggles so hosts polling it see a completed frame.
    #[verifier::rlimit(100)]
    pub fn mock_render(&mut self)
        requires
            old(self).wf(),
            old(self).vtus@.len() >= 1,
        ensures
            final(self).wf(),
            final(self).frame_buffer_out@.len() == NUM_PIXELS,
            forall|i: int|
                0 <= i < NUM_PIXELS ==> final(self).frame_buffer_out@[i] == mock_pixel(
                    old(self).vtus@[0].normal_out,
                    old(self).l2.l3.ddr_ram.blocks(),
                    old(self).camera_pos_in,
                    old(self).camera_heading_in,
                    i,
                ),
            final(self).frame_done_out == !old(self).frame_done_out,
            final(self).vtus@ == old(self).vtus@.update(
                0,
                mock_unit_state(
                    old(self).vtus@[0],
                    old(self).l2.l3.ddr_ram.blocks(),
                    old(self).camera_pos_in,
                    old(self).camera_heading_in,
                    NUM_PIXELS - 1,
                ),
            ),
            *final(self) == (Orchestrator {
                frame_buffer_out: final(self).frame_buffer_out,
                frame_done_out: final(self).frame_done_out,
                vtus: final(self).vtus,
                ..*old(self)
            }),
    {
        let ghost pre = *old(self);
        let ghost blocks = self.l2.l3.ddr_ram.blocks();
        let ghost n0 = pre.vtus@[0].normal_out;
        let cam = self.camera_pos_in;
        let heading = self.camera_heading_in;

        // Per-frame camera basis, computed locally as the clocked path does
        // at frame start.
        let w = heading.normalized();
        let bu = Vec3::up().cross(w).normalized();
        let bv = w.cross(bu);
        let viewport_u = bu.scale(Fixed::from_raw(VIEWPORT_W_RAW));
        let viewport_v = bv.neg().scale(Fixed::from_raw(VIEWPORT_H_RAW));
        let du = bu.scale(Fixed::from_raw(PIXEL_PITCH_RAW));
        let dv = bv.neg().scale(Fixed::from_raw(PIXEL_PITCH_RAW));
        let corner = cam.add(w).sub(viewport_u.add(viewport_v).scale(Fixed::from_raw(0x4000)));
        let p0 = corner.add(du.add(dv).scale(Fixed::from_raw(0x4000)));
        proof {
            assert(p0 == pixel0_of(pre.camera_pos_in, pre.camera_heading_in));
            assert(du == delta_u_of(pre.camera_heading_in));
            assert(dv == delta_v_of(pre.camera_heading_in));
        }

        let mut u = self.vtus[0];
        let mut i: usize = 0;
        while i < NUM_PIXELS
            invariant
                pre.wf(),
                self.reset == pre.reset,
                self.camera_pos_in == pre.camera_pos_in,
                self.camera_heading_in == pre.camera_heading_in,
                self.camera_pos == pre.camera_pos,
                self.frame_done_out == pre.frame_done_out,
                self.vtus == pre.vtus,
                self.l2 == pre.l2,
                self.next_pixel == pre.next_pixel,
                self.pixel0_loc == pre.pixel0_loc,
                self.pixel_delta_u == pre.pixel_delta_u,
                self.pixel_delta_v == pre.pixel_delta_v,
                self.frame_buffer_out@.len() == NUM_PIXELS,
                pre.vtus@.len() >= 1,
                blocks == pre.l2.l3.ddr_ram.blocks(),
                n0 == pre.vtus@[0].normal_out,
                cam == pre.camera_pos_in,
                heading == pre.camera_heading_in,
                p0 == pixel0_of(cam, heading),
                du == delta_u_of(heading),
                dv == delta_v_of(heading),
                i <= NUM_PIXELS,
                i == 0 ==> u == pre.vtus@[0],
                i > 0 ==> u == mock_unit_state(pre.vtus@[0], blocks, cam, heading, i - 1),
                forall|j: int|
                    0 <= j < i ==> self.frame_buffer_out@[j] == mock_pixel(
                        n0,
                        blocks,
                        cam,
                        heading,
                        j,
                    ),
            decreases NUM_PIXELS - i,
        {
            let x = (i % FRAME_WIDTH) as i32;
            let y = (i / FRAME_WIDTH) as i32;
            let ploc = p0.add(du.scale(Fixed::from_int(x))).add(dv.scale(Fixed::from_int(y)));
            let dir = ploc.sub(cam);
            proof {
                assert(dir == mock_dir(cam, heading, i as int));
            }
            let ghost u_prev = u;
            let color = cast_pixel(&mut u, &self.l2.l3.ddr_ram, cam, dir);
            proof {
                lemma_unit_state_step(pre.vtus@[0], u_prev, u, blocks, cam, heading, i as int);
                assert(u_prev.normal_out == if i == 0 {
                    n0
                } else {
                    mock_normal(n0, blocks, cam, heading, i - 1)
                });
                lemma_pixel_step(n0, u_prev.normal_out, blocks, cam, heading, i as int, color);
            }
            self.frame_buffer_out[i] = color;
            i = i + 1;
        }
        self.vtus[0] = u;
        self.frame_done_out = !self.frame_done_out;
    }
}

} // verus!

verus! {

/// Law: the pixel cursor never leaves `[0, NUM_PIXELS]`; `rising_clk_edge`
/// preserves well-formedness, so this bound holds throughout execution.
pub proof fn lemma_next_pixel_in_range(s: Orchestrator)
    requires
        s.wf(),
    ensures
        0 <= s.next_pixel <= NUM_PIXELS,
{
}

/// Law: when `frame_done_out` is high the frame is complete: every pixel has
/// been dispatched and the cursor sits at `NUM_PIXELS`, so the next plain
/// tick starts a new frame.
pub proof fn lemma_frame_done_means_complete(s0: Orchestrator, s1: Orchestrator)
    requires
        orch_step(s0, s1),
        s1.frame_done_out,
    ensures
        s1.next_pixel == NUM_PIXELS,
        !s1.reset,
{
    reveal(orch_step);
    let (l2a, l3b, vtus_c, l2c) = choose|
        l2a: L2Cache,
        l3b: L3Cache,
        vtus_c: Seq<VoxelTraversalUnit>,
        l2c: L2Cache,
    | orch_clock(s0, l2a, l3b, vtus_c, l2c) && orch_logic(s0, vtus_c, l2c, s1);
}

/// Law: `frame_done_out` is a one-tick pulse: it is never high on two
/// consecutive ticks, because the tick after a completed frame starts the
/// next frame.
pub proof fn lemma_frame_done_pulse(s0: Orchestrator, s1: Orchestrator, s2: Orchestrator)
    requires
        orch_step(s0, s1),
        orch_step(s1, s2),
        s1.frame_done_out,
    ensures
        !s2.frame_done_out,
{
    reveal(orch_step);
    lemma_frame_done_means_complete(s0, s1);
    let (l2a, l3b, vtus_c, l2c) = choose|
        l2a: L2Cache,
        l3b: L3Cache,
        vtus_c: Seq<VoxelTraversalUnit>,
        l2c: L2Cache,
    | orch_clock(s1, l2a, l3b, vtus_c, l2c) && orch_logic(s1, vtus_c, l2c, s2);
}

} // verus!

verus! {

/// A clocked unit keeps its pixel assignment and port.
proof fn lemma_vtu_step_keeps(
    a: VoxelTraversalUnit,
    l2a: L2Cache,
    b: VoxelTraversalUnit,
    l2b: L2Cache,
)
    requires
        vtu_step(a, l2a, b, l2b),
    ensures
        b.current_pixel == a.current_pixel,
{
}

/// A chain of orchestrator states, each tick following from the last.
pub open spec fn trace_ok(tr: Seq<Orchestrator>) -> bool {
    forall|i: int| 0 <= i < tr.len() - 1 ==> orch_step(#[trigger] tr[i], tr[i + 1])
}

/// The lone clocked unit of a one-unit engine keeps its pixel assignment
/// through the clock phase.
proof fn lemma_clock_keeps_pixel(s0: Orchestrator, vtus_c: Seq<VoxelTraversalUnit>, l2b: L2Cache, l2c: L2Cache)
    requires
        s0.vtus@.len() == 1,
        vtus_step_chain(reset_vtus(s0.vtus@, s0.reset), l2b, vtus_c, l2c),
    ensures
        vtus_c.len() == 1,
        vtus_c[0].current_pixel == s0.vtus@[0].current_pixel,
{
    let rv = reset_vtus(s0.vtus@, s0.reset);
    let l2mid = choose|l2mid: L2Cache|
        vtu_step(rv[0], l2b, vtus_c[0], l2mid) && vtus_step_chain(
            rv.subrange(1, 1),
            l2mid,
            vtus_c.subrange(1, 1),
            l2c,
        );
    lemma_vtu_step_keeps(rv[0], l2b, vtus_c[0], l2mid);
}

/// A successful scan always answers an index within the units.
proof fn lemma_first_valid_in_range(s: Seq<VoxelTraversalUnit>, k: int)
    requires
        0 <= k,
        first_valid_from(s, k) is Some,
    ensures
        (match first_valid_from(s, k) {
            Some(m) => k <= m < s.len(),
            None => false,
        }),
    decreases s.len() - k,
{
    if k < s.len() && !(first_valid_from(s, k) == Some(k)) {
        lemma_first_valid_in_range(s, k + 1);
    }
}

/// The frame-start facts the coverage argument rests on.
#[verifier::rlimit(100)]
proof fn lemma_step_frame_start(s0: Orchestrator, s1: Orchestrator)
    requires
        orch_step(s0, s1),
        !s0.reset,
        s0.vtus@.len() == 1,
        s0.next_pixel == NUM_PIXELS,
    ensures
        s1.vtus@.len() == 1,
        s1.next_pixel == 0,
        !s1.frame_done_out,
        s1.vtus@[0].current_pixel == 0,
{
    reveal(orch_step);
    let (l2a, l3b, vtus_c, l2c) = choose|
        l2a: L2Cache,
        l3b: L3Cache,
        vtus_c: Seq<VoxelTraversalUnit>,
        l2c: L2Cache,
    | orch_clock(s0, l2a, l3b, vtus_c, l2c) && orch_logic(s0, vtus_c, l2c, s1);
    let l2b = L2Cache { l3: l3b, ..l2a };
    lemma_clock_keeps_pixel(s0, vtus_c, l2b, l2c);
}

/// The decision-phase half of a steady tick, for a single unit.
#[verifier::rlimit(100)]
proof fn lemma_logic_steady(
    s0: Orchestrator,
    vtus_c: Seq<VoxelTraversalUnit>,
    l2c: L2Cache,
    s1: Orchestrator,
)
    requires
        orch_logic(s0, vtus_c, l2c, s1),
        !s0.reset,
        s0.next_pixel != NUM_PIXELS,
        vtus_c.len() == 1,
        vtus_c[0].current_pixel < s0.frame_buffer_out@.len(),
    ensures
        s1.vtus@.len() == 1,
        ({
            ||| {
                &&& s1.next_pixel == s0.next_pixel
                &&& !s1.frame_done_out
                &&& s1.vtus@[0].current_pixel == vtus_c[0].current_pixel
            }
            ||| {
                &&& s1.next_pixel == s0.next_pixel + 1
                &&& s1.frame_done_out == (s1.next_pixel == NUM_PIXELS)
                &&& s1.vtus@[0].current_pixel == s1.next_pixel
                &&& exists|b: Block, n: Vec3|
                    s1.frame_buffer_out@[vtus_c[0].current_pixel as int] == shade_spec(b, n)
            }
        }),
{
    let vtus_m = cleared_vtus(vtus_c);
    match first_valid(vtus_m) {
        None => {},
        Some(k) => {
            lemma_first_valid_in_range(vtus_m, 0);
            assert(k == 0);
            let done = vtus_m[0];
            assert(done.current_pixel == vtus_c[0].current_pixel);
            assert(s1.frame_buffer_out@[done.current_pixel as int] == shade_spec(
                done.voxel_out,
                done.normal_out,
            ));
        },
    }
}

/// The steady-tick facts the coverage argument rests on: the cursor holds or
/// advances one pixel, and an advancing tick writes a shaded colour at the
/// lone unit's pixel and re-aims the unit at the new cursor.
#[verifier::rlimit(100)]
proof fn lemma_step_steady(s0: Orchestrator, s1: Orchestrator)
    requires
        orch_step(s0, s1),
        s0.wf(),
        !s0.reset,
        s0.vtus@.len() == 1,
        s0.next_pixel != NUM_PIXELS,
    ensures
        s1.vtus@.len() == 1,
        ({
            ||| {
                &&& s1.next_pixel == s0.next_pixel
                &&& !s1.frame_done_out
                &&& s1.vtus@[0].current_pixel == s0.vtus@[0].current_pixel
            }
            ||| {
                &&& s1.next_pixel == s0.next_pixel + 1
                &&& s1.frame_done_out == (s1.next_pixel == NUM_PIXELS)
                &&& s1.vtus@[0].current_pixel == s1.next_pixel
                &&& exists|b: Block, n: Vec3|
                    s1.frame_buffer_out@[s0.vtus@[0].current_pixel as int] == shade_spec(b, n)
            }
        }),
{
    reveal(orch_step);
    let (l2a, l3b, vtus_c, l2c) = choose|
        l2a: L2Cache,
        l3b: L3Cache,
        vtus_c: Seq<VoxelTraversalUnit>,
        l2c: L2Cache,
    | orch_clock(s0, l2a, l3b, vtus_c, l2c) && orch_logic(s0, vtus_c, l2c, s1);
    let l2b = L2Cache { l3: l3b, ..l2a };
    lemma_clock_keeps_pixel(s0, vtus_c, l2b, l2c);
    assert(s0.vtus@[0].current_pixel < NUM_PIXELS);
    lemma_logic_steady(s0, vtus_c, l2c, s1);
}

/// Within one frame the cursor and the lone unit's pixel march together,
/// every mid-frame state sits strictly before `NUM_PIXELS`, and the
/// framebuffer index written at each advancing tick is the cursor itself.
proof fn lemma_trace_inv(tr: Seq<Orchestrator>, upto: int)
    requires
        tr.len() >= 2,
        trace_ok(tr),
        forall|i: int| 0 <= i < tr.len() ==> (#[trigger] tr[i]).wf(),
        forall|i: int| 0 <= i < tr.len() ==> !(#[trigger] tr[i]).reset,
        forall|i: int| 0 <= i < tr.len() ==> (#[trigger] tr[i]).vtus@.len() == 1,
        tr[0].next_pixel == NUM_PIXELS,
        forall|i: int| 1 <= i < tr.len() - 1 ==> !(#[trigger] tr[i]).frame_done_out,
        1 <= upto < tr.len(),
    ensures
        tr[upto].next_pixel <= NUM_PIXELS,
        tr[upto].vtus@[0].current_pixel == tr[upto].next_pixel,
        upto < tr.len() - 1 ==> tr[upto].next_pixel < NUM_PIXELS,
    decreases upto,
{
    if upto == 1 {
        lemma_step_frame_start(tr[0], tr[1]);
    } else {
        lemma_trace_inv(tr, upto - 1);
        if tr[upto - 1].next_pixel == NUM_PIXELS {
            lemma_step_frame_start(tr[upto - 1], tr[upto]);
        } else {
            lemma_step_steady(tr[upto - 1], tr[upto]);
        }
    }
}

/// Law (single-unit frames): every pixel of the frame is written. In a
/// reset-free run of a one-unit engine from a frame start to the
/// `frame_done_out` pulse, each pixel index is crossed by the cursor exactly
/// where that pixel's shaded colour lands in the framebuffer.
pub proof fn lemma_frame_covers_every_pixel(tr: Seq<Orchestrator>, j: int)
    requires
        tr.len() >= 2,
        trace_ok(tr),
        forall|i: int| 0 <= i < tr.len() ==> (#[trigger] tr[i]).wf(),
        forall|i: int| 0 <= i < tr.len() ==> !(#[trigger] tr[i]).reset,
        forall|i: int| 0 <= i < tr.len() ==> (#[trigger] tr[i]).vtus@.len() == 1,
        tr[0].next_pixel == NUM_PIXELS,
        forall|i: int| 1 <= i < tr.len() - 1 ==> !(#[trigger] tr[i]).frame_done_out,
        tr[tr.len() - 1].frame_done_out,
        0 <= j < NUM_PIXELS,
    ensures
        exists|i: int|
            1 <= i < tr.len() - 1 && #[trigger] tr[i].next_pixel == j && tr[i + 1].next_pixel == j
                + 1 && (exists|b: Block, n: Vec3|
                tr[i + 1].frame_buffer_out@[j] == shade_spec(b, n)),
{
    if tr.len() == 2 {
        // The first tick is a frame start, whose post-state cannot pulse.
        lemma_step_frame_start(tr[0], tr[1]);
        assert(false);
    }
    lemma_trace_inv(tr, tr.len() - 2);
    lemma_step_steady(tr[tr.len() - 2], tr[tr.len() - 1]);
    lemma_trace_inv(tr, tr.len() - 1);
    assert(tr[tr.len() - 1].next_pixel == NUM_PIXELS);
    lemma_step_frame_start(tr[0], tr[1]);
    lemma_find_crossing(tr, j, 1);
}

/// The cursor walks from at most `j` up past `j` in steps of one, so some
/// tick crosses `j` exactly and writes pixel `j`.
proof fn lemma_find_crossing(tr: Seq<Orchestrator>, j: int, at: int)
    requires
        tr.len() >= 3,
        trace_ok(tr),
        forall|i: int| 0 <= i < tr.len() ==> (#[trigger] tr[i]).wf(),
        forall|i: int| 0 <= i < tr.len() ==> !(#[trigger] tr[i]).reset,
        forall|i: int| 0 <= i < tr.len() ==> (#[trigger] tr[i]).vtus@.len() == 1,
        tr[0].next_pixel == NUM_PIXELS,
        forall|i: int| 1 <= i < tr.len() - 1 ==> !(#[trigger] tr[i]).frame_done_out,
        tr[tr.len() - 1].next_pixel == NUM_PIXELS,
        0 <= j < NUM_PIXELS,
        1 <= at < tr.len() - 1,
        tr[at].next_pixel <= j,
    ensures
        exists|i: int|
            1 <= i < tr.len() - 1 && #[trigger] tr[i].next_pixel == j && tr[i + 1].next_pixel == j
                + 1 && (exists|b: Block, n: Vec3|
                tr[i + 1].frame_buffer_out@[j] == shade_spec(b, n)),
    decreases tr.len() - at,
{
    lemma_trace_inv(tr, at);
    lemma_step_steady(tr[at], tr[at + 1]);
    if tr[at + 1].next_pixel > j {
        // The step advanced exactly one, so it crossed j here; the pixel
        // written is the cursor's own index.
        assert(tr[at].next_pixel == j);
        assert(tr[at + 1].next_pixel == j + 1);
        assert(tr[at].vtus@[0].current_pixel == j);
        assert(exists|b: Block, n: Vec3| tr[at + 1].frame_buffer_out@[j] == shade_spec(b, n));
    } else {
        // Not yet past j; the pulse state at the end sits at NUM_PIXELS > j,
        // so a later step must cross.
        assert(at + 1 < tr.len() - 1) by {
            if at + 1 == tr.len() - 1 {
                assert(tr[at + 1].next_pixel == NUM_PIXELS);
            }
        }
        lemma_find_crossing(tr, j, at + 1);
    }
}

} // verus!
