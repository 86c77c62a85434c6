use smooth_life::pipeline::{ComputeDispatch, PipelineKind, SmoothLifeNode, SmoothLifeState};
use smooth_life::{SIM_HEIGHT, SIM_WIDTH, WORKGROUP_SIZE};

fn full_pass(pipeline: PipelineKind) -> Option<ComputeDispatch> {
    Some(ComputeDispatch {
        pipeline,
        workgroups_x: 150,
        workgroups_y: 75,
        workgroups_z: 1,
    })
}

#[test]
fn new_node_is_loading_and_dispatches_nothing() {
    let node = SmoothLifeNode::default();
    assert_eq!(node.state(), SmoothLifeState::Loading);
    assert_eq!(node.run(), None);
}

#[test]
fn loading_waits_for_init_pipeline_only() {
    let mut node = SmoothLifeNode::default();
    node.update(false, true);
    assert_eq!(node.state(), SmoothLifeState::Loading);
    node.update(false, false);
    assert_eq!(node.state(), SmoothLifeState::Loading);
    node.update(true, false);
    assert_eq!(node.state(), SmoothLifeState::Init);
}

#[test]
fn loading_moves_one_stage_even_when_both_are_ready() {
    let mut node = SmoothLifeNode::default();
    node.update(true, true);
    assert_eq!(node.state(), SmoothLifeState::Init);
    assert_eq!(node.run(), full_pass(PipelineKind::Init));
}

#[test]
fn init_waits_for_update_pipeline() {
    let mut node = SmoothLifeNode::default();
    node.update(true, false);
    assert_eq!(node.run(), full_pass(PipelineKind::Init));
    node.update(true, false);
    assert_eq!(node.state(), SmoothLifeState::Init);
    assert_eq!(node.run(), None);
    node.update(false, true);
    assert_eq!(node.state(), SmoothLifeState::Update);
    assert_eq!(node.run(), full_pass(PipelineKind::Update));
}

#[test]
fn init_pass_is_recorded_once_while_update_pipeline_compiles() {
    let mut node = SmoothLifeNode::default();
    node.update(true, false);
    assert_eq!(node.run(), full_pass(PipelineKind::Init));
    for _ in 0..5 {
        node.update(false, false);
        assert_eq!(node.state(), SmoothLifeState::Init);
        assert_eq!(node.run(), None);
    }
}

#[test]
fn update_pass_follows_init_pass_directly() {
    let mut node = SmoothLifeNode::default();
    node.update(true, true);
    assert_eq!(node.run(), full_pass(PipelineKind::Init));
    node.update(true, true);
    assert_eq!(node.run(), full_pass(PipelineKind::Update));
}

#[test]
fn update_state_is_final() {
    let mut node = SmoothLifeNode::default();
    node.update(true, false);
    node.update(false, true);
    for (init_ready, update_ready) in [(false, false), (true, false), (false, true), (true, true)] {
        node.update(init_ready, update_ready);
        assert_eq!(node.state(), SmoothLifeState::Update);
        assert_eq!(node.run(), full_pass(PipelineKind::Update));
    }
}

#[test]
fn init_pass_runs_before_update_pass_in_a_trace() {
    let frames = [(false, false), (false, true), (true, true), (false, false), (true, true), (true, true)];
    let mut node = SmoothLifeNode::default();
    let mut passes = Vec::new();
    for (init_ready, update_ready) in frames {
        node.update(init_ready, update_ready);
        passes.push(node.run().map(|d| d.pipeline));
    }
    assert_eq!(
        passes,
        vec![
            None,
            None,
            Some(PipelineKind::Init),
            None,
            Some(PipelineKind::Update),
            Some(PipelineKind::Update),
        ]
    );
}

#[test]
fn dispatch_covers_simulation_texture() {
    assert_eq!((SIM_WIDTH, SIM_HEIGHT, WORKGROUP_SIZE), (1200, 600, 8));
    let d = ComputeDispatch::covering(PipelineKind::Update, SIM_WIDTH, SIM_HEIGHT, WORKGROUP_SIZE);
    assert_eq!(d, full_pass(PipelineKind::Update).unwrap());
}

#[test]
fn dispatch_counts_whole_tiles_only() {
    let d = ComputeDispatch::covering(PipelineKind::Init, 1207, 7, 8);
    assert_eq!(d.workgroups_x, 150);
    assert_eq!(d.workgroups_y, 0);
    assert_eq!(d.workgroups_z, 1);
    let e = ComputeDispatch::covering(PipelineKind::Init, u32::MAX, 1, 1);
    assert_eq!((e.workgroups_x, e.workgroups_y), (u32::MAX, 1));
}

#[test]
fn entry_points_name_shader_functions() {
    assert_eq!(PipelineKind::Init.entry_point(), "init");
    assert_eq!(PipelineKind::Update.entry_point(), "update");
}
