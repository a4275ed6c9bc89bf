//! The top of the design: wraps the orchestrator, propagating reset and the
//! clock, and giving the camera its power-on defaults.

use vstd::prelude::*;

use crate::chunk::MockCache;
use crate::orchestrator::{orch_step, Orchestrator};
use crate::vec3::{v3_raw, Vec3};

verus! {

/// The whole design under one reset line and one clock.
pub struct TopLevel {
    /// Signal to reset the design on the next tick.
    pub reset: bool,
    /// The module that manages the caches and traversal units.
    pub orchestrator: Orchestrator,
}

impl TopLevel {
    pub open spec fn wf(self) -> bool {
        self.orchestrator.wf()
    }

    /// A quiescent design over the given chunk store.
    pub fn new(chunk: MockCache) -> (r: TopLevel)
        requires
            chunk.wf(),
        ensures
            r.wf(),
            !r.reset,
            !r.orchestrator.reset,
    {
        TopLevel { reset: false, orchestrator: Orchestrator::new(chunk) }
    }

    /// Advance the whole design by one clock cycle: the reset line
    /// propagates into the orchestrator, which then clocks; a reset tick
    /// also restores the camera inputs to their power-on values (position
    /// at the origin, heading forward).
    pub fn rising_clk_edge(&mut self)
        requires
            old(self).wf(),
        ensures
            final(self).wf(),
            final(self).reset == old(self).reset,
            orch_step(
                Orchestrator { reset: old(self).reset, ..old(self).orchestrator },
                if old(self).reset {
                    Orchestrator {
                        camera_heading_in: old(self).orchestrator.camera_heading_in,
                        camera_pos_in: old(self).orchestrator.camera_pos_in,
                        ..final(self).orchestrator
                    }
                } else {
                    final(self).orchestrator
                },
            ),
            old(self).reset ==> final(self).orchestrator.camera_heading_in == v3_raw(
                0,
                0,
                0x8000,
            ) && final(self).orchestrator.camera_pos_in == v3_raw(0, 0, 0),
    {
        self.orchestrator.reset = self.reset;
        self.orchestrator.rising_clk_edge();
        let ghost mid = self.orchestrator;
        if self.reset {
            self.orchestrator.camera_heading_in = Vec3::forward();
            self.orchestrator.camera_pos_in = Vec3::zero();
            proof {
                reveal(crate::orchestrator::orch_step);
                assert(Orchestrator {
                    camera_heading_in: mid.camera_heading_in,
                    camera_pos_in: mid.camera_pos_in,
                    ..self.orchestrator
                } == mid);
            }
        }
    }
}

} // verus!
