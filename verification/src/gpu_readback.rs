//! A compute node without a readiness state: it dispatches whenever the
//! pipeline cache hands out the compiled pipeline and the bind group is
//! there.

use crate::compute_shader::WorkgroupSize;
use vstd::prelude::*;

verus! {

/// The node that executes the compute shader.
#[derive(Clone, Copy, Debug, PartialEq, Eq, Structural)]
pub struct ComputeNode {
    pub workgroup_size: WorkgroupSize,
}

impl Default for ComputeNode {
    fn default() -> (node: Self)
        ensures
            node.workgroup_size == (WorkgroupSize { x: 0, y: 0, z: 0 }),
    {
        ComputeNode { workgroup_size: WorkgroupSize { x: 0, y: 0, z: 0 } }
    }
}

impl ComputeNode {
    /// Decides the compute pass of this frame: one dispatch of the node's
    /// extents if the compiled pipeline is there and the bind group has been
    /// prepared; none otherwise, so that a frame that comes too early is
    /// skipped.
    pub fn run(&self, pipeline_available: bool, bind_group_prepared: bool) -> (dispatch: Option<
        WorkgroupSize,
    >)
        ensures
            dispatch == if pipeline_available && bind_group_prepared {
                Some(self.workgroup_size)
            } else {
                None::<WorkgroupSize>
            },
    {
        if pipeline_available && bind_group_prepared {
            Some(self.workgroup_size)
        } else {
            None
        }
    }
}

} // verus!
