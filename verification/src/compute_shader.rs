//! Readiness of a compute pipeline and the repeat limit of its readbacks.
//!
//! Nothing here touches the GPU. A caller that owns the pipeline reports what
//! the pipeline cache says once per frame; these types decide what follows:
//! the next readiness state, whether the state has to be published, whether a
//! compute pass is dispatched, and when a readback detaches itself.

use vstd::prelude::*;

verus! {

/// Extents of one compute dispatch, in workgroups along each axis.
#[derive(Clone, Copy, Debug, PartialEq, Eq, Structural)]
pub struct WorkgroupSize {
    pub x: u32,
    pub y: u32,
    pub z: u32,
}

/// How often a readback is repeated before it detaches itself.
#[derive(Clone, Copy, Debug, PartialEq, Eq, Structural)]
pub enum ReadbackLimit {
    /// Never detach.
    Infinite,
    /// Detach on the update that counts past this number.
    Finite(usize),
}

impl Default for ReadbackLimit {
    fn default() -> (limit: Self)
        ensures
            limit == ReadbackLimit::Infinite,
    {
        ReadbackLimit::Infinite
    }
}

/// A readback subscription with its repeat limit and running counter.
#[derive(Clone, Copy, Debug, PartialEq, Eq, Structural)]
pub struct ComputeShaderReadback {
    pub limit: ReadbackLimit,
    pub count: usize,
}

impl Default for ComputeShaderReadback {
    fn default() -> (readback: Self)
        ensures
            readback.limit == ReadbackLimit::Infinite,
            readback.count == 0,
    {
        ComputeShaderReadback { limit: ReadbackLimit::Infinite, count: 0 }
    }
}

impl ComputeShaderReadback {
    /// Whether one more update can be counted without leaving `usize`.
    pub open spec fn can_count(self) -> bool {
        self.limit is Finite ==> self.count < usize::MAX
    }

    /// Whether the next update tells the subscription to detach.
    pub open spec fn detaches(self) -> bool {
        self.limit matches ReadbackLimit::Finite(limit) && self.count + 1 > limit
    }

    /// The subscription after its next update.
    pub open spec fn ticked(self) -> Self {
        match self.limit {
            ReadbackLimit::Finite(_) => ComputeShaderReadback {
                limit: self.limit,
                count: (self.count + 1) as usize,
            },
            ReadbackLimit::Infinite => self,
        }
    }

    /// The subscription after `ticks` updates.
    pub open spec fn after(self, ticks: nat) -> Self
        decreases ticks,
    {
        if ticks == 0 {
            self
        } else {
            self.after((ticks - 1) as nat).ticked()
        }
    }

    /// Counts one update. A finite subscription advances its counter and
    /// asks to be detached once the counter exceeds the limit; an infinite
    /// one is left as it is and never asks.
    pub fn update(&mut self) -> (detach: bool)
        requires
            old(self).can_count(),
        ensures
            *final(self) == old(self).ticked(),
            detach == old(self).detaches(),
    {
        match self.limit {
            ReadbackLimit::Finite(limit) => {
                self.count = self.count + 1;
                self.count > limit
            },
            ReadbackLimit::Infinite => false,
        }
    }

    /// Re-arms the subscription when the pipeline has become ready: the
    /// counter starts again at zero, the limit stays.
    pub fn on_shader_ready(&mut self)
        ensures
            final(self).count == 0,
            final(self).limit == old(self).limit,
    {
        self.count = 0;
    }
}

/// A subscription limited to `limit` updates and counted from zero has
/// counted `done` after `done` updates, and its next update, the one numbered
/// `done + 1`, asks to detach exactly when that number exceeds the limit.
pub proof fn lemma_finite_detaches_past_limit(limit: usize, done: nat)
    requires
        done < usize::MAX,
    ensures
        (ComputeShaderReadback { limit: ReadbackLimit::Finite(limit), count: 0 }).after(done)
            == (ComputeShaderReadback { limit: ReadbackLimit::Finite(limit), count: done as usize }),
        (ComputeShaderReadback { limit: ReadbackLimit::Finite(limit), count: 0 }).after(done).can_count(),
        (ComputeShaderReadback { limit: ReadbackLimit::Finite(limit), count: 0 }).after(
            done,
        ).detaches() <==> done + 1 > limit,
    decreases done,
{
    if done > 0 {
        lemma_finite_detaches_past_limit(limit, (done - 1) as nat);
    }
}

/// A subscription without a limit never asks to detach, however many
/// updates it has seen, and its counter does not move.
pub proof fn lemma_infinite_never_detaches(count: usize, done: nat)
    ensures
        (ComputeShaderReadback { limit: ReadbackLimit::Infinite, count }).after(done)
            == (ComputeShaderReadback { limit: ReadbackLimit::Infinite, count }),
        !(ComputeShaderReadback { limit: ReadbackLimit::Infinite, count }).after(done).detaches(),
    decreases done,
{
    if done > 0 {
        lemma_infinite_never_detaches(count, (done - 1) as nat);
    }
}

/// Readiness of the compute pipeline.
#[derive(Clone, Copy, Debug, PartialEq, Eq, Hash, Structural)]
pub enum ComputeNodeState {
    /// The pipeline has not been seen compiled.
    Loading,
    /// The pipeline has been seen compiled once.
    Init,
    /// The pipeline has been seen compiled a second time: safe to dispatch.
    Ready,
}

impl Default for ComputeNodeState {
    fn default() -> (state: Self)
        ensures
            state == ComputeNodeState::Loading,
    {
        ComputeNodeState::Loading
    }
}

/// What the pipeline cache reports of the queued compute pipeline.
#[derive(Clone, Copy, Debug, PartialEq, Eq, Structural)]
pub enum PipelineStatus {
    /// Queued, compilation not started.
    Queued,
    /// Being compiled, for the first time or again.
    Creating,
    /// Compiled and usable.
    Compiled,
    /// Compilation failed.
    Failed,
}

/// What the owner of a node has to do after an update.
#[derive(Clone, Copy, Debug, PartialEq, Eq, Structural)]
pub enum NodeUpdate {
    /// The state stays as it was; nothing to publish.
    Unchanged,
    /// The state changed to the one given; publish it.
    Changed(ComputeNodeState),
    /// The shader failed to compile; there is no way on.
    Failed,
}

impl ComputeNodeState {
    /// The state that follows `self` when the cache reports `status`.
    pub open spec fn observe(self, status: PipelineStatus) -> ComputeNodeState {
        match (self, status) {
            (ComputeNodeState::Loading, PipelineStatus::Compiled) => ComputeNodeState::Init,
            (ComputeNodeState::Init, PipelineStatus::Compiled) => ComputeNodeState::Ready,
            (ComputeNodeState::Ready, PipelineStatus::Creating) => ComputeNodeState::Loading,
            _ => self,
        }
    }

    /// What the owner is told after `self` has met `status`: a compile
    /// error ends the node in whatever state it is seen.
    pub open spec fn outcome(self, status: PipelineStatus) -> NodeUpdate {
        if status == PipelineStatus::Failed {
            NodeUpdate::Failed
        } else if self.observe(status) != self {
            NodeUpdate::Changed(self.observe(status))
        } else {
            NodeUpdate::Unchanged
        }
    }

    /// The state after a run of reports, oldest first.
    pub open spec fn observe_all(self, reports: Seq<PipelineStatus>) -> ComputeNodeState
        decreases reports.len(),
    {
        if reports.len() == 0 {
            self
        } else {
            self.observe_all(reports.drop_last()).observe(reports.last())
        }
    }

    /// The one-way copy from the render side to the main side: the value to
    /// schedule as the main side's next state, if the render side's state
    /// changed since the last copy, and nothing otherwise.
    pub fn extract_to_main(render_state: ComputeNodeState, changed: bool) -> (next: Option<
        ComputeNodeState,
    >)
        ensures
            next == if changed {
                Some(render_state)
            } else {
                None::<ComputeNodeState>
            },
    {
        if changed {
            Some(render_state)
        } else {
            None
        }
    }
}

/// The render-graph node that owns the readiness state.
#[derive(Clone, Copy, Debug, PartialEq, Eq, Structural)]
pub struct ComputeNode {
    pub state: ComputeNodeState,
}

impl Default for ComputeNode {
    fn default() -> (node: Self)
        ensures
            node.state == ComputeNodeState::Loading,
    {
        ComputeNode { state: ComputeNodeState::Loading }
    }
}

/// The words with which a shader that failed to compile is given up: the
/// path of the shader, then what the compiler said.
pub open spec fn failure_text(shader_path: Seq<char>, error: Seq<char>) -> Seq<char> {
    "Error loading compute shader "@ + shader_path + ": \n"@ + error
}

impl ComputeNode {
    /// Advances the readiness state by one report of the pipeline cache.
    ///
    /// Loading becomes Init on a compiled pipeline, Init becomes Ready on the
    /// next one, and Ready falls back to Loading when the pipeline is being
    /// compiled again. A compile error is reported as `Failed`, in whatever
    /// state it is seen, and leaves the state alone: the owner has to give
    /// up, with [`Self::failure_message`]. Every other report changes
    /// nothing.
    pub fn update(&mut self, status: PipelineStatus) -> (outcome: NodeUpdate)
        ensures
            final(self).state == old(self).state.observe(status),
            outcome == old(self).state.outcome(status),
    {
        match (self.state, status) {
            (_, PipelineStatus::Failed) => NodeUpdate::Failed,
            (ComputeNodeState::Loading, PipelineStatus::Compiled) => {
                self.state = ComputeNodeState::Init;
                NodeUpdate::Changed(ComputeNodeState::Init)
            },
            (ComputeNodeState::Init, PipelineStatus::Compiled) => {
                self.state = ComputeNodeState::Ready;
                NodeUpdate::Changed(ComputeNodeState::Ready)
            },
            (ComputeNodeState::Ready, PipelineStatus::Creating) => {
                self.state = ComputeNodeState::Loading;
                NodeUpdate::Changed(ComputeNodeState::Loading)
            },
            _ => NodeUpdate::Unchanged,
        }
    }

    /// The diagnostic to give up with when an update has failed: it names
    /// the shader and repeats the compiler's error.
    pub fn failure_message(shader_path: &str, error: &str) -> (text: String)
        ensures
            text@ == failure_text(shader_path@, error@),
    {
        let mut text = String::from_str("Error loading compute shader ");
        text.append(shader_path);
        text.append(": \n");
        text.append(error);
        text
    }

    /// Decides the compute pass of this frame: one dispatch of the given
    /// extents when the node is Ready, the cache hands out the compiled
    /// pipeline and the bind group has been prepared; none otherwise, so
    /// that a frame that comes too early is skipped.
    pub fn run(
        &self,
        pipeline_available: bool,
        bind_group_prepared: bool,
        workgroup_size: WorkgroupSize,
    ) -> (dispatch: Option<WorkgroupSize>)
        ensures
            dispatch == if self.state == ComputeNodeState::Ready && pipeline_available
                && bind_group_prepared {
                Some(workgroup_size)
            } else {
                None::<WorkgroupSize>
            },
    {
        match self.state {
            ComputeNodeState::Ready => if pipeline_available && bind_group_prepared {
                Some(workgroup_size)
            } else {
                None
            },
            _ => None,
        }
    }
}

/// Ready is entered only from Init and only on a compiled pipeline, so no
/// single report takes a loading node to Ready; two compiled reports in a row
/// do; and a ready node whose pipeline is compiled again is back at Loading.
pub proof fn lemma_readiness_steps(state: ComputeNodeState, status: PipelineStatus)
    ensures
        state.observe(status) == ComputeNodeState::Ready && state != ComputeNodeState::Ready ==> state
            == ComputeNodeState::Init && status == PipelineStatus::Compiled,
        ComputeNodeState::Loading.observe(status) != ComputeNodeState::Ready,
        ComputeNodeState::Loading.observe(PipelineStatus::Compiled).observe(PipelineStatus::Compiled)
            == ComputeNodeState::Ready,
        ComputeNodeState::Ready.observe(PipelineStatus::Creating) == ComputeNodeState::Loading,
{
}

/// How many of the reports say that the pipeline is compiled.
pub open spec fn compiled_reports(reports: Seq<PipelineStatus>) -> nat
    decreases reports.len(),
{
    if reports.len() == 0 {
        0
    } else if reports.last() == PipelineStatus::Compiled {
        compiled_reports(reports.drop_last()) + 1
    } else {
        compiled_reports(reports.drop_last())
    }
}

/// A node that starts at Loading is past Loading only after at least one
/// compiled report, and Ready only after at least two.
pub proof fn lemma_ready_needs_two_compiled(reports: Seq<PipelineStatus>)
    ensures
        ComputeNodeState::Loading.observe_all(reports) == ComputeNodeState::Init
            ==> compiled_reports(reports) >= 1,
        ComputeNodeState::Loading.observe_all(reports) == ComputeNodeState::Ready
            ==> compiled_reports(reports) >= 2,
    decreases reports.len(),
{
    if reports.len() > 0 {
        lemma_ready_needs_two_compiled(reports.drop_last());
    }
}

} // verus!
