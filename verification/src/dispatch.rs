//! The frame-graph compute node.
//!
//! One node is inserted into the render graph, ordered by an explicit
//! precedence edge before the camera-driver node, so the simulation
//! kernel runs before the frame's draw output. Each frame the node
//! decides its work here: nothing until the bind group is published and
//! the pipeline compiled, otherwise a single fixed-size dispatch. The
//! dispatch is always 16 x 16 x 1 workgroups; the kernel itself tiles
//! the full `MAP_SIZE` x `MAP_SIZE` grid from its invocation indices, so
//! changing the map size requires a matching kernel-side change.

use vstd::prelude::*;

verus! {

use crate::prepare::KernelBindGroup;

/// Labels of the render-graph nodes this library adds; the simulation
/// node carries the edge that orders it before the camera driver.
#[derive(Clone, PartialEq, Eq, Hash, Debug)]
pub enum MyRenderLabels {
    Simulate,
}

/// The map-simulation node of the frame graph.
pub struct DispatchKernel;

/// A fully bound compute dispatch, ready for submission.
#[derive(Clone, Copy, PartialEq, Eq, Structural, Debug)]
pub struct ComputeDispatch {
    /// The compiled compute pipeline to bind.
    pub pipeline: u64,
    /// The published resource set to bind at slot 0.
    pub bind_group: u64,
    pub workgroups_x: u32,
    pub workgroups_y: u32,
    pub workgroups_z: u32,
}

impl DispatchKernel {
    /// Decide this frame's compute work. While the bind group is not yet
    /// published or the pipeline not yet compiled, the node is a no-op;
    /// afterwards it issues exactly one 16 x 16 x 1 dispatch per frame.
    pub fn run(&self, pipeline: Option<u64>, bind_group: Option<KernelBindGroup>) -> (work: Option<
        ComputeDispatch,
    >)
        ensures
            work is Some <==> pipeline is Some && bind_group is Some,
            work matches Some(w) ==> {
                &&& pipeline == Some(w.pipeline)
                &&& bind_group == Some(KernelBindGroup(w.bind_group))
                &&& w.workgroups_x == 16
                &&& w.workgroups_y == 16
                &&& w.workgroups_z == 1
            },
    {
        match (pipeline, bind_group) {
            (Some(p), Some(KernelBindGroup(b))) => Some(
                ComputeDispatch {
                    pipeline: p,
                    bind_group: b,
                    workgroups_x: 16,
                    workgroups_y: 16,
                    workgroups_z: 1,
                },
            ),
            _ => None,
        }
    }
}

} // verus!
