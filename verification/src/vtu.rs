//! The voxel traversal unit: a clocked state machine that casts one ray
//! voxel-by-voxel (Amanatides & Woo 3-D DDA) through the shared L2 cache
//! and emits the first non-empty voxel it meets together with the surface
//! normal of the face it entered through.

use vstd::prelude::*;

use crate::block::Block;
use crate::chunk::{chunk_query, MockCache};
use crate::fixed::{fx_abs, fx_add, fx_mul, fx_sub, recip_lte1_spec, Fixed};
use crate::l2::L2Cache;
use crate::vec3::{v3_floor, v3_normalized, v3_raw, v3_scale, Vec3};
use crate::vec3i::Vec3i;

verus! {

/// A ray is abandoned as a miss once it has taken more steps than this.
pub const MAX_STEPS: usize = 110;

/// Which axis the most recent DDA step advanced along.
#[derive(Clone, Copy, Debug, PartialEq, Eq, Structural)]
pub enum Axis {
    Unset,
    X,
    Y,
    Z,
}

/// A voxel traversal unit. Drive `ray_origin_in` / `ray_direction_in`,
/// pulse `ray_init_in` for one tick, then tick until `valid_out` rises;
/// `voxel_out` then holds the first non-empty voxel on the ray (`Air` when
/// nothing was hit within `MAX_STEPS`) and `normal_out` the entry face's
/// normal. `valid_out` stays high until the next init or reset.
#[derive(Clone, Copy, Debug, PartialEq, Eq, Structural)]
pub struct VoxelTraversalUnit {
    /// Reset the unit to a known state on the next tick.
    pub reset: bool,
    /// World-space coordinate where the ray begins.
    pub ray_origin_in: Vec3,
    /// Heading of the ray; it need not be normalized.
    pub ray_direction_in: Vec3,
    /// Reinitialize the traversal from the inputs this tick.
    pub ray_init_in: bool,
    /// The voxel this unit last hit.
    pub voxel_out: Block,
    /// Surface normal of the face the ray entered the hit voxel through.
    pub normal_out: Vec3,
    /// Whether `voxel_out` / `normal_out` answer the last initialized ray.
    pub valid_out: bool,
    /// The pixel this unit is rendering; the orchestrator reads it back on
    /// completion.
    pub current_pixel: usize,
    /// The index of the L2 port this unit owns, fixed at construction.
    pub port: usize,
    /// Normalized direction of the ray in flight.
    pub ray_direction: Vec3,
    /// The voxel the ray currently stands in.
    pub ray_position: Vec3i,
    /// Step sign per axis, +1 or -1.
    pub ray_step: Vec3i,
    /// Ray-parameter distance between voxel boundaries, per axis.
    pub ray_t_delta: Vec3,
    /// Distance from the origin to the first boundary, per axis.
    pub ray_dist: Vec3,
    /// Ray parameter of the nearest voxel boundary, per axis.
    pub ray_t_max: Vec3,
    /// Voxels traversed so far on this ray.
    pub num_steps: usize,
    /// The axis of the most recent step.
    pub last_step: Axis,
}

/// The axis the DDA advances next: the strictly smallest `t_max` wins;
/// on ties the nesting prefers Y to X and Z to both.
pub open spec fn dda_axis(t_max: Vec3) -> Axis {
    if t_max.x.raw < t_max.y.raw {
        if t_max.x.raw < t_max.z.raw {
            Axis::X
        } else {
            Axis::Z
        }
    } else {
        if t_max.y.raw < t_max.z.raw {
            Axis::Y
        } else {
            Axis::Z
        }
    }
}

/// The surface normal reported for a hit: opposite the step taken on the
/// axis of the last step, zero when the ray never stepped.
pub open spec fn vtu_normal(step: Vec3i, last: Axis) -> Vec3 {
    match last {
        Axis::Unset => v3_raw(0, 0, 0),
        Axis::X => v3_scale(v3_raw(0x8000, 0, 0), -step.x * 0x8000),
        Axis::Y => v3_scale(v3_raw(0, 0x8000, 0), -step.y * 0x8000),
        Axis::Z => v3_scale(v3_raw(0, 0, 0x8000), -step.z * 0x8000),
    }
}

/// The unit's registers after a reset tick: outputs cleared (the normal to
/// the zero vector), the internal direction pointing forward, every
/// traversal register zeroed; the inputs and the port assignment are
/// untouched.
pub open spec fn vtu_reset_state(pre: VoxelTraversalUnit) -> VoxelTraversalUnit {
    VoxelTraversalUnit {
        voxel_out: Block::Air,
        valid_out: false,
        normal_out: v3_raw(0, 0, 0),
        ray_direction: v3_raw(0, 0, ONE as int),
        ray_position: Vec3i { x: 0, y: 0, z: 0 },
        ray_step: Vec3i { x: 0, y: 0, z: 0 },
        ray_t_delta: v3_raw(0, 0, 0),
        ray_dist: v3_raw(0, 0, 0),
        ray_t_max: v3_raw(0, 0, 0),
        num_steps: 0,
        last_step: Axis::Unset,
        ..pre
    }
}

/// The raw register of the fixed-point value 1.
pub const ONE: i32 = 0x8000;

/// The unit's registers after an init tick: the direction is normalized,
/// the starting voxel is the floor of the origin, and the classic DDA
/// set-up follows. Per axis `k`: the step is the sign of the direction
/// (-1 for zero); `t_delta.k` is `|1 / d.k|`; `dist.k` is the distance from
/// the origin to the first boundary crossed; and `t_max.k` is
/// `t_delta.k * dist.k`, clamped to the largest value when `d.k` is zero so
/// the axis never wins the race.
pub open spec fn vtu_init_state(pre: VoxelTraversalUnit) -> VoxelTraversalUnit {
    let o = pre.ray_origin_in;
    let d = v3_normalized(pre.ray_direction_in);
    let p = v3_floor(o);
    let step = Vec3i {
        x: if d.x.raw > 0 { 1int } else { -1int } as i32,
        y: if d.y.raw > 0 { 1int } else { -1int } as i32,
        z: if d.z.raw > 0 { 1int } else { -1int } as i32,
    };
    let t_delta = v3_raw(
        fx_abs(recip_lte1_spec(d.x.raw)),
        fx_abs(recip_lte1_spec(d.y.raw)),
        fx_abs(recip_lte1_spec(d.z.raw)),
    );
    let dist = v3_raw(
        if step.x > 0 {
            fx_add(fx_sub(ONE as int, o.x.raw as int), p.x * 0x8000)
        } else {
            fx_sub(o.x.raw as int, p.x * 0x8000)
        },
        if step.y > 0 {
            fx_add(fx_sub(ONE as int, o.y.raw as int), p.y * 0x8000)
        } else {
            fx_sub(o.y.raw as int, p.y * 0x8000)
        },
        if step.z > 0 {
            fx_add(fx_sub(ONE as int, o.z.raw as int), p.z * 0x8000)
        } else {
            fx_sub(o.z.raw as int, p.z * 0x8000)
        },
    );
    let t_max = v3_raw(
        if d.x.raw != 0 {
            fx_mul(t_delta.x.raw as int, dist.x.raw as int)
        } else {
            i32::MAX as int
        },
        if d.y.raw != 0 {
            fx_mul(t_delta.y.raw as int, dist.y.raw as int)
        } else {
            i32::MAX as int
        },
        if d.z.raw != 0 {
            fx_mul(t_delta.z.raw as int, dist.z.raw as int)
        } else {
            i32::MAX as int
        },
    );
    VoxelTraversalUnit {
        ray_direction: d,
        ray_position: p,
        ray_step: step,
        ray_t_delta: t_delta,
        ray_dist: dist,
        ray_t_max: t_max,
        num_steps: 0,
        valid_out: false,
        last_step: Axis::Unset,
        ..pre
    }
}

/// The unit's registers after one DDA advance: the winning axis's position
/// moves one step, its `t_max` grows by its `t_delta`, the step counter
/// ticks, and the axis is remembered for the normal.
pub open spec fn vtu_advance_state(pre: VoxelTraversalUnit) -> VoxelTraversalUnit {
    let axis = dda_axis(pre.ray_t_max);
    let pos = pre.ray_position;
    let step = pre.ray_step;
    let t = pre.ray_t_max;
    let td = pre.ray_t_delta;
    let moved = match axis {
        Axis::X => VoxelTraversalUnit {
            ray_position: Vec3i { x: fx_add(pos.x as int, step.x as int) as i32, ..pos },
            ray_t_max: Vec3 {
                x: Fixed { raw: fx_add(t.x.raw as int, td.x.raw as int) as i32 },
                ..t
            },
            ..pre
        },
        Axis::Y => VoxelTraversalUnit {
            ray_position: Vec3i { y: fx_add(pos.y as int, step.y as int) as i32, ..pos },
            ray_t_max: Vec3 {
                y: Fixed { raw: fx_add(t.y.raw as int, td.y.raw as int) as i32 },
                ..t
            },
            ..pre
        },
        _ => VoxelTraversalUnit {
            ray_position: Vec3i { z: fx_add(pos.z as int, step.z as int) as i32, ..pos },
            ray_t_max: Vec3 {
                z: Fixed { raw: fx_add(t.z.raw as int, td.z.raw as int) as i32 },
                ..t
            },
            ..pre
        },
    };
    VoxelTraversalUnit {
        last_step: axis,
        num_steps: (pre.num_steps + 1) as usize,
        ..moved
    }
}

/// The L2 after a unit drove its own port and nothing else: `read_enable`
/// set to `re`, the address overwritten only when a new read is issued.
pub open spec fn l2_port_driven(
    pre: L2Cache,
    post: L2Cache,
    port: int,
    re: bool,
    addr: Option<Vec3i>,
) -> bool {
    &&& post.reset == pre.reset
    &&& post.voxel_out == pre.voxel_out
    &&& post.valid_out == pre.valid_out
    &&& post.l3 == pre.l3
    &&& post.entries == pre.entries
    &&& post.next_replacement == pre.next_replacement
    &&& post.accesses == pre.accesses
    &&& post.hits == pre.hits
    &&& post.read_enable_in@ == pre.read_enable_in@.update(port, re)
    &&& post.addr_in@ == match addr {
        Some(a) => pre.addr_in@.update(port, a),
        None => pre.addr_in@,
    }
}

/// How one rising clock edge transforms a traversal unit and its L2 port.
/// In order of priority: reset; init from the inputs (issuing the first
/// read); holding a completed ray; abandoning a ray past `MAX_STEPS` as a
/// miss; stalling while the port has no valid answer; completing on a
/// non-empty voxel with its normal; or advancing one DDA step and issuing
/// the read for the new voxel.
pub open spec fn vtu_step(
    pre: VoxelTraversalUnit,
    l2pre: L2Cache,
    post: VoxelTraversalUnit,
    l2post: L2Cache,
) -> bool {
    let port = pre.port as int;
    if pre.reset {
        post == vtu_reset_state(pre) && l2_port_driven(l2pre, l2post, port, false, None)
    } else if pre.ray_init_in {
        post == vtu_init_state(pre) && l2_port_driven(
            l2pre,
            l2post,
            port,
            true,
            Some(vtu_init_state(pre).ray_position),
        )
    } else if pre.valid_out {
        post == pre && l2post == l2pre
    } else if pre.num_steps > MAX_STEPS {
        post == (VoxelTraversalUnit { voxel_out: Block::Air, valid_out: true, ..pre })
            && l2_port_driven(l2pre, l2post, port, false, None)
    } else if !l2pre.valid_out@[port] {
        post == pre && l2post == l2pre
    } else if l2pre.voxel_out@[port] != Block::Air {
        post == (VoxelTraversalUnit {
            voxel_out: l2pre.voxel_out@[port],
            valid_out: true,
            normal_out: vtu_normal(pre.ray_step, pre.last_step),
            ..pre
        }) && l2_port_driven(l2pre, l2post, port, false, None)
    } else {
        post == vtu_advance_state(pre) && l2_port_driven(
            l2pre,
            l2post,
            port,
            true,
            Some(vtu_advance_state(pre).ray_position),
        )
    }
}

impl VoxelTraversalUnit {
    /// The step registers never hold anything but a sign (or 0 before the
    /// first init).
    pub open spec fn wf(self) -> bool {
        &&& -1 <= self.ray_step.x <= 1
        &&& -1 <= self.ray_step.y <= 1
        &&& -1 <= self.ray_step.z <= 1
    }

    /// An idle unit owning L2 port `port`.
    pub fn new(port: usize) -> (r: VoxelTraversalUnit)
        ensures
            r.wf(),
            r == (VoxelTraversalUnit {
                reset: false,
                ray_origin_in: v3_raw(0, 0, 0),
                ray_direction_in: v3_raw(0, 0, ONE as int),
                ray_init_in: false,
                current_pixel: 0,
                port,
                ..vtu_reset_state(r)
            }),
    {
        VoxelTraversalUnit {
            reset: false,
            ray_origin_in: Vec3::zero(),
            ray_direction_in: Vec3::forward(),
            ray_init_in: false,
            voxel_out: Block::Air,
            normal_out: Vec3::zero(),
            valid_out: false,
            current_pixel: 0,
            port,
            ray_direction: Vec3::forward(),
            ray_position: Vec3i::zero(),
            ray_step: Vec3i::zero(),
            ray_t_delta: Vec3::zero(),
            ray_dist: Vec3::zero(),
            ray_t_max: Vec3::zero(),
            num_steps: 0,
            last_step: Axis::Unset,
        }
    }

    /// Advance the unit by one clock cycle, driving its own L2 port.
    pub fn rising_clk_edge(&mut self, l2: &mut L2Cache)
        requires
            old(self).wf(),
            old(l2).wf(),
            old(self).port < old(l2).ports(),
        ensures
            final(self).wf(),
            final(l2).wf(),
            final(self).port == old(self).port,
            final(self).current_pixel == old(self).current_pixel,
            final(l2).ports() == old(l2).ports(),
            vtu_step(*old(self), *old(l2), *final(self), *final(l2)),
    {
        let port = self.port;

        // Reset wins over everything.
        if self.reset {
            self.voxel_out = Block::Air;
            self.valid_out = false;
            self.normal_out = Vec3::zero();
            self.ray_direction = Vec3::forward();
            self.ray_position = Vec3i::zero();
            self.ray_step = Vec3i::zero();
            self.ray_t_delta = Vec3::zero();
            self.ray_dist = Vec3::zero();
            self.ray_t_max = Vec3::zero();
            self.num_steps = 0;
            self.last_step = Axis::Unset;
            l2.read_enable_in[port] = false;
            return;
        }

        // A pulsed init latches the inputs and issues the first read.
        if self.ray_init_in {
            let o = self.ray_origin_in;
            let d = self.ray_direction_in.normalized();
            let p = o.floor();
            self.ray_direction = d;
            self.ray_position = p;
            self.ray_step = Vec3i {
                x: if d.x.raw > 0 { 1 } else { -1 },
                y: if d.y.raw > 0 { 1 } else { -1 },
                z: if d.z.raw > 0 { 1 } else { -1 },
            };
            self.ray_t_delta = Vec3 {
                x: d.x.recip_lte1().abs(),
                y: d.y.recip_lte1().abs(),
                z: d.z.recip_lte1().abs(),
            };
            self.ray_dist = Vec3 {
                x: if self.ray_step.x > 0 {
                    Fixed::one().sub(o.x).add(Fixed::from_int(p.x))
                } else {
                    o.x.sub(Fixed::from_int(p.x))
                },
                y: if self.ray_step.y > 0 {
                    Fixed::one().sub(o.y).add(Fixed::from_int(p.y))
                } else {
                    o.y.sub(Fixed::from_int(p.y))
                },
                z: if self.ray_step.z > 0 {
                    Fixed::one().sub(o.z).add(Fixed::from_int(p.z))
                } else {
                    o.z.sub(Fixed::from_int(p.z))
                },
            };
            self.ray_t_max = Vec3 {
                x: if d.x.raw != 0 {
                    self.ray_t_delta.x.mul(self.ray_dist.x)
                } else {
                    Fixed::max_value()
                },
                y: if d.y.raw != 0 {
                    self.ray_t_delta.y.mul(self.ray_dist.y)
                } else {
                    Fixed::max_value()
                },
                z: if d.z.raw != 0 {
                    self.ray_t_delta.z.mul(self.ray_dist.z)
                } else {
                    Fixed::max_value()
                },
            };
            self.num_steps = 0;
            self.valid_out = false;
            self.last_step = Axis::Unset;
            l2.read_enable_in[port] = true;
            l2.addr_in[port] = self.ray_position;
            return;
        }

        // A completed ray holds its outputs until the next init.
        if self.valid_out {
            return;
        }

        // Out of render distance: report a miss.
        if self.num_steps > MAX_STEPS {
            self.voxel_out = Block::Air;
            self.valid_out = true;
            l2.read_enable_in[port] = false;
            return;
        }

        // Stall until the cache answers, holding the read stable.
        if !l2.valid_out[port] {
            return;
        }

        // A non-empty voxel completes the ray.
        let seen = l2.voxel_out[port];
        if !seen.is_air() {
            self.voxel_out = seen;
            self.valid_out = true;
            self.normal_out = match self.last_step {
                Axis::Unset => Vec3::zero(),
                Axis::X => Vec3::right().scale(Fixed::from_int(-self.ray_step.x)),
                Axis::Y => Vec3::up().scale(Fixed::from_int(-self.ray_step.y)),
                Axis::Z => Vec3::forward().scale(Fixed::from_int(-self.ray_step.z)),
            };
            l2.read_enable_in[port] = false;
            return;
        }

        // Empty voxel: advance along the axis with the smallest t_max and
        // issue the read for the new voxel.
        if self.ray_t_max.x.lt(self.ray_t_max.y) {
            if self.ray_t_max.x.lt(self.ray_t_max.z) {
                self.ray_position.x = self.ray_position.x.wrapping_add(self.ray_step.x);
                self.ray_t_max.x = self.ray_t_max.x.add(self.ray_t_delta.x);
                self.last_step = Axis::X;
            } else {
                self.ray_position.z = self.ray_position.z.wrapping_add(self.ray_step.z);
                self.ray_t_max.z = self.ray_t_max.z.add(self.ray_t_delta.z);
                self.last_step = Axis::Z;
            }
        } else {
            if self.ray_t_max.y.lt(self.ray_t_max.z) {
                self.ray_position.y = self.ray_position.y.wrapping_add(self.ray_step.y);
                self.ray_t_max.y = self.ray_t_max.y.add(self.ray_t_delta.y);
                self.last_step = Axis::Y;
            } else {
                self.ray_position.z = self.ray_position.z.wrapping_add(self.ray_step.z);
                self.ray_t_max.z = self.ray_t_max.z.add(self.ray_t_delta.z);
                self.last_step = Axis::Z;
            }
        }
        self.num_steps = self.num_steps + 1;
        l2.read_enable_in[port] = true;
        l2.addr_in[port] = self.ray_position;
    }
}

} // verus!

verus! {

/// Cap on the instant (unclocked) cast, chosen for a longer render distance
/// than the clocked path.
pub const MOCK_MAX_STEPS: usize = 220;

/// What a full DDA walk over the chunk yields: `Some` of the first
/// non-empty voxel and the axis of the step that entered it, `None` when
/// the walk leaves the chunk or exhausts its fuel.
pub open spec fn mock_cast_hit(
    blocks: Seq<Block>,
    pos: Vec3i,
    step: Vec3i,
    t_delta: Vec3,
    t_max: Vec3,
    last: Axis,
    fuel: nat,
) -> Option<(Block, Axis)>
    decreases fuel,
{
    if fuel == 0 {
        None
    } else {
        match chunk_query(blocks, pos) {
            None => None,
            Some(b) => if b != Block::Air {
                Some((b, last))
            } else {
                let axis = dda_axis(t_max);
                let pos2 = match axis {
                    Axis::X => Vec3i { x: fx_add(pos.x as int, step.x as int) as i32, ..pos },
                    Axis::Y => Vec3i { y: fx_add(pos.y as int, step.y as int) as i32, ..pos },
                    _ => Vec3i { z: fx_add(pos.z as int, step.z as int) as i32, ..pos },
                };
                let t_max2 = match axis {
                    Axis::X => Vec3 {
                        x: Fixed { raw: fx_add(t_max.x.raw as int, t_delta.x.raw as int) as i32 },
                        ..t_max
                    },
                    Axis::Y => Vec3 {
                        y: Fixed { raw: fx_add(t_max.y.raw as int, t_delta.y.raw as int) as i32 },
                        ..t_max
                    },
                    _ => Vec3 {
                        z: Fixed { raw: fx_add(t_max.z.raw as int, t_delta.z.raw as int) as i32 },
                        ..t_max
                    },
                };
                mock_cast_hit(blocks, pos2, step, t_delta, t_max2, axis, (fuel - 1) as nat)
            },
        }
    }
}

/// Unfolds one empty-voxel step of `mock_cast_hit`: with fuel left and an
/// `Air` voxel underfoot, the walk continues from the advanced state.
proof fn lemma_mock_step(
    blocks: Seq<Block>,
    pos: Vec3i,
    step: Vec3i,
    t_delta: Vec3,
    t_max: Vec3,
    last: Axis,
    fuel: nat,
    pos2: Vec3i,
    t_max2: Vec3,
    axis: Axis,
)
    requires
        fuel >= 1,
        chunk_query(blocks, pos) == Some(Block::Air),
        axis == dda_axis(t_max),
        pos2 == match axis {
            Axis::X => Vec3i { x: fx_add(pos.x as int, step.x as int) as i32, ..pos },
            Axis::Y => Vec3i { y: fx_add(pos.y as int, step.y as int) as i32, ..pos },
            _ => Vec3i { z: fx_add(pos.z as int, step.z as int) as i32, ..pos },
        },
        t_max2 == match axis {
            Axis::X => Vec3 {
                x: Fixed { raw: fx_add(t_max.x.raw as int, t_delta.x.raw as int) as i32 },
                ..t_max
            },
            Axis::Y => Vec3 {
                y: Fixed { raw: fx_add(t_max.y.raw as int, t_delta.y.raw as int) as i32 },
                ..t_max
            },
            _ => Vec3 {
                z: Fixed { raw: fx_add(t_max.z.raw as int, t_delta.z.raw as int) as i32 },
                ..t_max
            },
        },
    ensures
        mock_cast_hit(blocks, pos, step, t_delta, t_max, last, fuel) == mock_cast_hit(
            blocks,
            pos2,
            step,
            t_delta,
            t_max2,
            axis,
            (fuel - 1) as nat,
        ),
{
}

impl VoxelTraversalUnit {
    /// Cast the ray described by the inputs instantly against a chunk store,
    /// bypassing the cache hierarchy and the clock: the same DDA set-up and
    /// walk as the clocked path, finishing in one call. Useful for testing
    /// and reference renders. Unlike the clocked path, a walk that leaves
    /// the chunk reports its miss immediately.
    #[verifier::rlimit(100)]
    pub fn mock_cast(&mut self, cache: &MockCache)
        requires
            cache.wf(),
        ensures
            ({
                let init = vtu_init_state(*old(self));
                let hit = mock_cast_hit(
                    cache.blocks(),
                    init.ray_position,
                    init.ray_step,
                    init.ray_t_delta,
                    init.ray_t_max,
                    Axis::Unset,
                    (MOCK_MAX_STEPS + 1) as nat,
                );
                match hit {
                    Some(p) => *final(self) == (VoxelTraversalUnit {
                        voxel_out: p.0,
                        valid_out: true,
                        normal_out: vtu_normal(init.ray_step, p.1),
                        ..*old(self)
                    }),
                    None => *final(self) == (VoxelTraversalUnit {
                        voxel_out: Block::Air,
                        valid_out: true,
                        ..*old(self)
                    }),
                }
            }),
    {
        let ghost init = vtu_init_state(*old(self));
        let o = self.ray_origin_in;
        let d = self.ray_direction_in.normalized();
        let p = o.floor();
        let step = Vec3i {
            x: if d.x.raw > 0 { 1 } else { -1 },
            y: if d.y.raw > 0 { 1 } else { -1 },
            z: if d.z.raw > 0 { 1 } else { -1 },
        };
        let t_delta = Vec3 {
            x: d.x.recip_lte1().abs(),
            y: d.y.recip_lte1().abs(),
            z: d.z.recip_lte1().abs(),
        };
        let dist = Vec3 {
            x: if step.x > 0 {
                Fixed::one().sub(o.x).add(Fixed::from_int(p.x))
            } else {
                o.x.sub(Fixed::from_int(p.x))
            },
            y: if step.y > 0 {
                Fixed::one().sub(o.y).add(Fixed::from_int(p.y))
            } else {
                o.y.sub(Fixed::from_int(p.y))
            },
            z: if step.z > 0 {
                Fixed::one().sub(o.z).add(Fixed::from_int(p.z))
            } else {
                o.z.sub(Fixed::from_int(p.z))
            },
        };
        let mut t_max = Vec3 {
            x: if d.x.raw != 0 {
                t_delta.x.mul(dist.x)
            } else {
                Fixed::max_value()
            },
            y: if d.y.raw != 0 {
                t_delta.y.mul(dist.y)
            } else {
                Fixed::max_value()
            },
            z: if d.z.raw != 0 {
                t_delta.z.mul(dist.z)
            } else {
                Fixed::max_value()
            },
        };
        let mut pos = p;
        let mut last = Axis::Unset;
        let mut num_steps: usize = 0;
        proof {
            assert(pos == init.ray_position && step == init.ray_step && t_delta
                == init.ray_t_delta && t_max == init.ray_t_max);
        }
        let ghost target = mock_cast_hit(
            cache.blocks(),
            init.ray_position,
            init.ray_step,
            init.ray_t_delta,
            init.ray_t_max,
            Axis::Unset,
            (MOCK_MAX_STEPS + 1) as nat,
        );
        while num_steps <= MOCK_MAX_STEPS
            invariant
                *self == *old(self),
                cache.wf(),
                num_steps <= MOCK_MAX_STEPS + 1,
                step == vtu_init_state(*old(self)).ray_step,
                target == mock_cast_hit(
                    cache.blocks(),
                    vtu_init_state(*old(self)).ray_position,
                    vtu_init_state(*old(self)).ray_step,
                    vtu_init_state(*old(self)).ray_t_delta,
                    vtu_init_state(*old(self)).ray_t_max,
                    Axis::Unset,
                    (MOCK_MAX_STEPS + 1) as nat,
                ),
                mock_cast_hit(
                    cache.blocks(),
                    pos,
                    step,
                    t_delta,
                    t_max,
                    last,
                    (MOCK_MAX_STEPS + 1 - num_steps) as nat,
                ) == target,
            decreases MOCK_MAX_STEPS + 1 - num_steps,
        {
            let ghost fuel = (MOCK_MAX_STEPS + 1 - num_steps) as nat;
            let ghost pos0 = pos;
            let ghost t_max0 = t_max;
            let ghost last0 = last;
            match cache.query(pos) {
                None => {
                    // Out of bounds: nothing hit.
                    proof {
                        assert(mock_cast_hit(cache.blocks(), pos0, step, t_delta, t_max0, last0, fuel)
                            is None);
                    }
                    self.voxel_out = Block::Air;
                    self.valid_out = true;
                    return;
                },
                Some(b) => {
                    if !b.is_air() {
                        proof {
                            assert(mock_cast_hit(
                                cache.blocks(),
                                pos0,
                                step,
                                t_delta,
                                t_max0,
                                last0,
                                fuel,
                            ) == Some((b, last0)));
                        }
                        self.voxel_out = b;
                        self.valid_out = true;
                        self.normal_out = match last {
                            Axis::Unset => Vec3::zero(),
                            Axis::X => Vec3::right().scale(Fixed::from_int(-step.x)),
                            Axis::Y => Vec3::up().scale(Fixed::from_int(-step.y)),
                            Axis::Z => Vec3::forward().scale(Fixed::from_int(-step.z)),
                        };
                        return;
                    }
                },
            }
            // Advance to the next voxel.
            if t_max.x.lt(t_max.y) {
                if t_max.x.lt(t_max.z) {
                    pos.x = pos.x.wrapping_add(step.x);
                    t_max.x = t_max.x.add(t_delta.x);
                    last = Axis::X;
                } else {
                    pos.z = pos.z.wrapping_add(step.z);
                    t_max.z = t_max.z.add(t_delta.z);
                    last = Axis::Z;
                }
            } else {
                if t_max.y.lt(t_max.z) {
                    pos.y = pos.y.wrapping_add(step.y);
                    t_max.y = t_max.y.add(t_delta.y);
                    last = Axis::Y;
                } else {
                    pos.z = pos.z.wrapping_add(step.z);
                    t_max.z = t_max.z.add(t_delta.z);
                    last = Axis::Z;
                }
            }
            num_steps = num_steps + 1;
            proof {
                lemma_mock_step(
                    cache.blocks(),
                    pos0,
                    step,
                    t_delta,
                    t_max0,
                    last0,
                    fuel,
                    pos,
                    t_max,
                    last,
                );
            }
        }
        // Fuel exhausted: out of render distance.
        self.voxel_out = Block::Air;
        self.valid_out = true;
    }
}

} // verus!

verus! {

/// Law: a completed ray's outputs hold steady — a unit with `valid_out`
/// high changes nothing (and leaves its cache port alone) until the next
/// init or reset, so each completed ray is observed exactly once per init.
pub proof fn lemma_done_holds_until_init(
    pre: VoxelTraversalUnit,
    l2pre: L2Cache,
    post: VoxelTraversalUnit,
    l2post: L2Cache,
)
    requires
        vtu_step(pre, l2pre, post, l2post),
        !pre.reset,
        !pre.ray_init_in,
        pre.valid_out,
    ensures
        post == pre,
        l2post == l2pre,
{
}

/// Law: every tick on which the cache answers makes progress — the unit
/// either completes the ray or takes exactly one more step, and a ray past
/// `MAX_STEPS` completes unconditionally. With the cache-progress law
/// bounding each answer to three ticks, a ray completes within
/// `MAX_STEPS + 2` answers of its init.
pub proof fn lemma_traversal_progress(
    pre: VoxelTraversalUnit,
    l2pre: L2Cache,
    post: VoxelTraversalUnit,
    l2post: L2Cache,
)
    requires
        vtu_step(pre, l2pre, post, l2post),
        !pre.reset,
        !pre.ray_init_in,
        !pre.valid_out,
        0 <= pre.port < l2pre.valid_out@.len(),
    ensures
        pre.num_steps > MAX_STEPS ==> post.valid_out,
        l2pre.valid_out@[pre.port as int] ==> post.valid_out || post.num_steps == pre.num_steps
            + 1,
{
}

} // verus!
