//! The compute node's lifecycle: which pipeline it waits for, when it moves
//! on, and which pass it records into the frame.
use vstd::prelude::*;

use crate::{SIM_HEIGHT, SIM_WIDTH, WORKGROUP_SIZE};

verus! {

/// The two compute pipelines built from the simulation shader.
#[derive(Clone, Copy, Debug, PartialEq, Eq, Structural)]
pub enum PipelineKind {
    /// Writes the initial state into the texture.
    Init,
    /// Advances the state by one step.
    Update,
}

impl PipelineKind {
    /// Name of the shader function that the pipeline runs.
    pub fn entry_point(&self) -> (r: &'static str)
        ensures
            *self == PipelineKind::Init ==> r@ == "init"@,
            *self == PipelineKind::Update ==> r@ == "update"@,
    {
        match self {
            PipelineKind::Init => "init",
            PipelineKind::Update => "update",
        }
    }
}


/// Where the node stands in its lifecycle.
#[derive(Clone, Copy, Debug, PartialEq, Eq, Structural)]
pub enum SmoothLifeState {
    /// The init pipeline is not compiled yet: nothing is dispatched.
    Loading,
    /// The init pipeline is ready: the init pass is dispatched in the first
    /// frame of this state only, then nothing until the update pipeline is
    /// ready too.
    Init,
    /// The update pipeline is ready: it is dispatched every frame from now on.
    Update,
}

/// Position of a state in the lifecycle order Loading < Init < Update.
pub open spec fn stage(s: SmoothLifeState) -> nat {
    match s {
        SmoothLifeState::Loading => 0,
        SmoothLifeState::Init => 1,
        SmoothLifeState::Update => 2,
    }
}

/// The state after one update, given whether each pipeline is ready.
/// Each state only looks at the pipeline that it waits for.
pub open spec fn next_state(s: SmoothLifeState, init_ready: bool, update_ready: bool) -> SmoothLifeState {
    match s {
        SmoothLifeState::Loading => if init_ready {
            SmoothLifeState::Init
        } else {
            SmoothLifeState::Loading
        },
        SmoothLifeState::Init => if update_ready {
            SmoothLifeState::Update
        } else {
            SmoothLifeState::Init
        },
        SmoothLifeState::Update => SmoothLifeState::Update,
    }
}

/// Whether the init pass has been recorded after one more update: it was
/// recorded already, or the node ran in the Init state in the last frame.
pub open spec fn next_init_recorded(s: SmoothLifeState, init_recorded: bool) -> bool {
    init_recorded || s == SmoothLifeState::Init
}

/// A compute dispatch: a pipeline and the number of workgroups along each axis.
#[derive(Clone, Copy, Debug, PartialEq, Eq, Structural)]
pub struct ComputeDispatch {
    pub pipeline: PipelineKind,
    pub workgroups_x: u32,
    pub workgroups_y: u32,
    pub workgroups_z: u32,
}

/// The dispatch of `pipeline` over a `width` x `height` texture with square
/// workgroups of side `workgroup_size`: one workgroup per whole tile.
pub open spec fn covering_dispatch(
    pipeline: PipelineKind,
    width: u32,
    height: u32,
    workgroup_size: u32,
) -> ComputeDispatch
    recommends
        workgroup_size > 0,
{
    ComputeDispatch {
        pipeline,
        workgroups_x: (width / workgroup_size) as u32,
        workgroups_y: (height / workgroup_size) as u32,
        workgroups_z: 1,
    }
}

/// The pass recorded in a frame by a node in state `s`: the init pass only
/// while it has not been recorded yet, the update pass every time.
pub open spec fn planned_dispatch(s: SmoothLifeState, init_recorded: bool) -> Option<ComputeDispatch> {
    match s {
        SmoothLifeState::Loading => None,
        SmoothLifeState::Init => if init_recorded {
            None
        } else {
            Some(covering_dispatch(PipelineKind::Init, SIM_WIDTH, SIM_HEIGHT, WORKGROUP_SIZE))
        },
        SmoothLifeState::Update => Some(
            covering_dispatch(PipelineKind::Update, SIM_WIDTH, SIM_HEIGHT, WORKGROUP_SIZE),
        ),
    }
}

/// Whether `plan` dispatches the pipeline `kind`.
pub open spec fn dispatches(plan: Option<ComputeDispatch>, kind: PipelineKind) -> bool {
    plan matches Some(d) && d.pipeline == kind
}

/// The state of a fresh node, and whether it has recorded the init pass,
/// after one update per frame, frame `k` seeing whether the init and the
/// update pipeline were ready in `frames[k]`.
pub open spec fn state_after(frames: Seq<(bool, bool)>) -> (SmoothLifeState, bool)
    decreases frames.len(),
{
    if frames.len() == 0 {
        (SmoothLifeState::Loading, false)
    } else {
        let (s, init_recorded) = state_after(frames.drop_last());
        let (init_ready, update_ready) = frames.last();
        (next_state(s, init_ready, update_ready), next_init_recorded(s, init_recorded))
    }
}

/// The pass that a fresh node records in frame `j`: frames `0..=j` have
/// each updated it once before it runs.
pub open spec fn frame_dispatch(frames: Seq<(bool, bool)>, j: int) -> Option<ComputeDispatch> {
    let (s, init_recorded) = state_after(frames.take(j + 1));
    planned_dispatch(s, init_recorded)
}

proof fn lemma_frame_step(frames: Seq<(bool, bool)>, n: int)
    requires
        0 <= n < frames.len(),
    ensures
        state_after(frames.take(n + 1)) == ({
            let (s, init_recorded) = state_after(frames.take(n));
            (
                next_state(s, frames[n].0, frames[n].1),
                next_init_recorded(s, init_recorded),
            )
        }),
{
    assert(frames.take(n + 1).drop_last() =~= frames.take(n));
}

proof fn lemma_loading_has_not_recorded(frames: Seq<(bool, bool)>, n: int)
    requires
        0 <= n <= frames.len(),
    ensures
        state_after(frames.take(n)).0 == SmoothLifeState::Loading ==> !state_after(
            frames.take(n),
        ).1,
    decreases n,
{
    if n == 0 {
        assert(frames.take(0) =~= Seq::<(bool, bool)>::empty());
    } else {
        lemma_frame_step(frames, n - 1);
        lemma_loading_has_not_recorded(frames, n - 1);
    }
}

proof fn lemma_recorded_after_init_frame(frames: Seq<(bool, bool)>, j: int, k: int)
    requires
        0 <= j < k < frames.len(),
        state_after(frames.take(j + 1)).0 == SmoothLifeState::Init,
    ensures
        state_after(frames.take(k + 1)).1,
    decreases k,
{
    lemma_frame_step(frames, k);
    if k > j + 1 {
        lemma_recorded_after_init_frame(frames, j, k - 1);
    }
}

proof fn lemma_init_frame_has_init_pass(frames: Seq<(bool, bool)>, m: int)
    requires
        0 <= m < frames.len(),
        state_after(frames.take(m + 1)).0 == SmoothLifeState::Init,
    ensures
        exists|k: int| 0 <= k <= m && dispatches(#[trigger] frame_dispatch(frames, k), PipelineKind::Init),
    decreases m,
{
    if !state_after(frames.take(m + 1)).1 {
        assert(dispatches(frame_dispatch(frames, m), PipelineKind::Init));
    } else {
        lemma_frame_step(frames, m);
        lemma_loading_has_not_recorded(frames, m);
        if m == 0 {
            assert(frames.take(0) =~= Seq::<(bool, bool)>::empty());
        }
        // the state before was Init too: the pass was planned at or before it
        lemma_init_frame_has_init_pass(frames, m - 1);
    }
}

/// Whatever the pipelines report, a fresh node dispatches the init pass in
/// some frame before any frame in which it dispatches the update pass.
pub proof fn lemma_init_pass_precedes_update_pass(frames: Seq<(bool, bool)>, j: int)
    requires
        0 <= j < frames.len(),
        dispatches(frame_dispatch(frames, j), PipelineKind::Update),
    ensures
        exists|k: int| 0 <= k < j && dispatches(#[trigger] frame_dispatch(frames, k), PipelineKind::Init),
    decreases j,
{
    lemma_frame_step(frames, j);
    if j == 0 {
        assert(frames.take(0) =~= Seq::<(bool, bool)>::empty());
    } else if state_after(frames.take(j)).0 == SmoothLifeState::Init {
        assert(frames.take(j) == frames.take((j - 1) + 1));
        lemma_init_frame_has_init_pass(frames, j - 1);
    } else {
        assert(frames.take(j) == frames.take((j - 1) + 1));
        lemma_init_pass_precedes_update_pass(frames, j - 1);
    }
}

/// Whatever the pipelines report, a fresh node dispatches the init pass in
/// at most one frame.
pub proof fn lemma_init_pass_at_most_once(frames: Seq<(bool, bool)>, j: int, k: int)
    requires
        0 <= j < frames.len(),
        0 <= k < frames.len(),
        dispatches(frame_dispatch(frames, j), PipelineKind::Init),
        dispatches(frame_dispatch(frames, k), PipelineKind::Init),
    ensures
        j == k,
{
    if j < k {
        lemma_recorded_after_init_frame(frames, j, k);
    } else if k < j {
        lemma_recorded_after_init_frame(frames, k, j);
    }
}

impl ComputeDispatch {
    /// Dispatch of `pipeline` with one workgroup per whole
    /// `workgroup_size` x `workgroup_size` tile of a `width` x `height` texture.
    pub fn covering(pipeline: PipelineKind, width: u32, height: u32, workgroup_size: u32) -> (r:
        ComputeDispatch)
        requires
            workgroup_size > 0,
        ensures
            r == covering_dispatch(pipeline, width, height, workgroup_size),
    {
        ComputeDispatch {
            pipeline,
            workgroups_x: width / workgroup_size,
            workgroups_y: height / workgroup_size,
            workgroups_z: 1,
        }
    }
}

/// Render-graph node that drives the simulation's compute passes.
pub struct SmoothLifeNode {
    state: SmoothLifeState,
    init_recorded: bool,
}

impl SmoothLifeNode {
    /// The node's current lifecycle state.
    pub closed spec fn view_state(&self) -> SmoothLifeState {
        self.state
    }

    /// Whether the node has already planned the init pass in an earlier frame.
    pub closed spec fn init_recorded(&self) -> bool {
        self.init_recorded
    }

    /// The node's current lifecycle state.
    pub fn state(&self) -> (r: SmoothLifeState)
        ensures
            r == self.view_state(),
    {
        self.state
    }

    /// Advances the lifecycle once per frame, before the frame's `run`: from
    /// Loading to Init when the init pipeline is ready, from Init to Update
    /// when the update pipeline is ready; Update is final. A node that was in
    /// Init has had its init pass planned by the last frame's `run`.
    pub fn update(&mut self, init_ready: bool, update_ready: bool)
        ensures
            final(self).view_state() == next_state(old(self).view_state(), init_ready, update_ready),
            final(self).init_recorded() == next_init_recorded(
                old(self).view_state(),
                old(self).init_recorded(),
            ),
            stage(old(self).view_state()) <= stage(final(self).view_state()),
            stage(final(self).view_state()) <= stage(old(self).view_state()) + 1,
    {
        match self.state {
            SmoothLifeState::Loading => {
                if init_ready {
                    self.state = SmoothLifeState::Init;
                }
            },
            SmoothLifeState::Init => {
                self.init_recorded = true;
                if update_ready {
                    self.state = SmoothLifeState::Update;
                }
            },
            SmoothLifeState::Update => {},
        }
    }

    /// The compute pass to record this frame over the whole simulation
    /// texture: nothing while loading, the init pass once, then the update
    /// pass every frame from the Update state on.
    pub fn run(&self) -> (r: Option<ComputeDispatch>)
        ensures
            r == planned_dispatch(self.view_state(), self.init_recorded()),
    {
        match self.state {
            SmoothLifeState::Loading => None,
            SmoothLifeState::Init => {
                if self.init_recorded {
                    None
                } else {
                    Some(
                        ComputeDispatch::covering(
                            PipelineKind::Init,
                            SIM_WIDTH,
                            SIM_HEIGHT,
                            WORKGROUP_SIZE,
                        ),
                    )
                }
            },
            SmoothLifeState::Update => Some(
                ComputeDispatch::covering(PipelineKind::Update, SIM_WIDTH, SIM_HEIGHT, WORKGROUP_SIZE),
            ),
        }
    }
}

impl Default for SmoothLifeNode {
    /// A node that has not seen any pipeline ready yet.
    fn default() -> (r: SmoothLifeNode)
        ensures
            r.view_state() == SmoothLifeState::Loading,
            !r.init_recorded(),
    {
        SmoothLifeNode { state: SmoothLifeState::Loading, init_recorded: false }
    }
}

} // verus!
