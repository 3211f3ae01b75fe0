use opaque_pass::load_ops::{
    ClearColorConfig, DepthLoadPolicy, LoadOp, Operations, PrepassFlags, StoreOp, ViewConfig,
};
use opaque_pass::node::{
    Action, Event, MainOpaquePass3dNode, PassInputs, PhaseKind, RunError, Stage,
};
use opaque_pass::render_pass::{Attachments, ColorTarget, DepthTarget, RenderPassConfig, Viewport};
use opaque_pass::skybox::{fullscreen_triangle, BindGroup, DrawCall, Pipeline, PipelineId};
use opaque_pass::trace::{PassRecord, Replies};

type Color = [f32; 4];
type Recorded = Action<Color, f32>;

const RED: Color = [1.0, 0.0, 0.0, 1.0];
const GREY: Color = [0.4, 0.4, 0.4, 1.0];
const FAR: f32 = 0.0;

fn inputs(opaque_items: usize, alpha_mask_items: usize) -> PassInputs<Color, f32> {
    PassInputs {
        config: ViewConfig {
            clear_color_config: ClearColorConfig::Custom(RED),
            depth_load_policy: DepthLoadPolicy::Clear(FAR),
        },
        prepass: PrepassFlags::none(),
        default_clear_color: GREY,
        attachments: Attachments { color_target: ColorTarget(1), depth_target: DepthTarget(2) },
        viewport: None,
        opaque_items,
        alpha_mask_items,
        skybox_pipeline: None,
        skybox_bind_group: None,
        view_uniform_offset: 0,
    }
}

fn with_skybox(mut view: PassInputs<Color, f32>) -> PassInputs<Color, f32> {
    view.skybox_pipeline = Some(PipelineId(7));
    view.skybox_bind_group = Some(BindGroup(8));
    view.view_uniform_offset = 768;
    view
}

fn run(view: &PassInputs<Color, f32>, replies: &Replies) -> PassRecord<Color, f32> {
    MainOpaquePass3dNode.run(view, replies)
}

fn pass_config(record: &PassRecord<Color, f32>) -> RenderPassConfig<Color, f32> {
    match record.actions[0] {
        Action::BeginPass(config) => config,
        other => panic!("the pass does not begin by opening: {:?}", other),
    }
}

fn draws_of(record: &PassRecord<Color, f32>, kind: PhaseKind) -> Vec<usize> {
    let mut indices = Vec::new();
    for action in &record.actions {
        if let Action::DrawItem { phase, index } = action {
            if *phase == kind {
                indices.push(*index);
            }
        }
    }
    indices
}

fn count(record: &PassRecord<Color, f32>, wanted: fn(&Recorded) -> bool) -> usize {
    record.actions.iter().filter(|action| wanted(action)).count()
}

fn is_begin_pass(action: &Recorded) -> bool {
    matches!(action, Action::BeginPass(_))
}

fn is_end_pass(action: &Recorded) -> bool {
    matches!(action, Action::EndPass)
}

fn is_finish(action: &Recorded) -> bool {
    matches!(action, Action::Finish(_))
}

fn is_draw(action: &Recorded) -> bool {
    matches!(action, Action::Draw(_))
}

fn is_lookup(action: &Recorded) -> bool {
    matches!(action, Action::LookupPipeline(_))
}

fn is_skybox_command(action: &Recorded) -> bool {
    matches!(action, Action::SetPipeline(_) | Action::SetBindGroup { .. } | Action::Draw(_))
}

fn begins_opaque(action: &Recorded) -> bool {
    matches!(action, Action::BeginPhase(PhaseKind::Opaque))
}

fn begins_alpha_mask(action: &Recorded) -> bool {
    matches!(action, Action::BeginPhase(PhaseKind::AlphaMask))
}

fn order_of(action: &Recorded) -> u8 {
    match action {
        Action::BeginPass(_) => 0,
        Action::SetViewport(_) => 1,
        Action::BeginPhase(PhaseKind::Opaque) => 2,
        Action::DrawItem { phase: PhaseKind::Opaque, .. } => 2,
        Action::BeginPhase(PhaseKind::AlphaMask) => 3,
        Action::DrawItem { phase: PhaseKind::AlphaMask, .. } => 3,
        Action::LookupPipeline(_) => 4,
        Action::SetPipeline(_) => 4,
        Action::SetBindGroup { .. } => 4,
        Action::Draw(_) => 4,
        Action::EndPass => 5,
        Action::Finish(_) => 6,
    }
}

fn drive(view: &PassInputs<Color, f32>, replies: &Replies) -> PassRecord<Color, f32> {
    let node = MainOpaquePass3dNode;
    let (mut stage, first) = node.start(view);
    let mut actions = vec![first];
    loop {
        if let Some(result) = stage.result() {
            return PassRecord { actions, result };
        }
        let event = match stage {
            Stage::DrawingItem { phase: PhaseKind::Opaque, index } => {
                if replies.opaque_failure == Some(index) { Event::DrawFailed } else { Event::Done }
            }
            Stage::DrawingItem { phase: PhaseKind::AlphaMask, index } => {
                if replies.alpha_mask_failure == Some(index) { Event::DrawFailed } else { Event::Done }
            }
            Stage::LookingUp(_) => Event::Pipeline(replies.pipeline),
            _ => Event::Done,
        };
        let (next, action) = node.step(view, stage, event).unwrap();
        actions.push(action);
        stage = next;
    }
}

#[test]
fn custom_clear_without_prepass_or_skybox() {
    let view = inputs(4, 0);
    let record = run(&view, &Replies::succeeding(None));
    assert_eq!(record.result, Ok(()));
    assert_eq!(count(&record, is_begin_pass), 1);
    assert_eq!(count(&record, is_end_pass), 1);
    let config = pass_config(&record);
    assert_eq!(config.color_attachment.ops, Operations { load: LoadOp::Clear(RED), store: StoreOp::Store });
    assert_eq!(
        config.depth_stencil_attachment.depth_ops,
        Some(Operations { load: LoadOp::Clear(FAR), store: StoreOp::Store })
    );
    assert_eq!(draws_of(&record, PhaseKind::Opaque), vec![0, 1, 2, 3]);
    assert_eq!(draws_of(&record, PhaseKind::AlphaMask), Vec::<usize>::new());
    assert_eq!(count(&record, begins_alpha_mask), 0);
    assert_eq!(count(&record, is_draw), 0);
    assert_eq!(count(&record, is_lookup), 0);
    assert_eq!(
        record.actions,
        vec![
            Action::BeginPass(config),
            Action::BeginPhase(PhaseKind::Opaque),
            Action::DrawItem { phase: PhaseKind::Opaque, index: 0 },
            Action::DrawItem { phase: PhaseKind::Opaque, index: 1 },
            Action::DrawItem { phase: PhaseKind::Opaque, index: 2 },
            Action::DrawItem { phase: PhaseKind::Opaque, index: 3 },
            Action::EndPass,
            Action::Finish(Ok(())),
        ]
    );
}

#[test]
fn deferred_lighting_loads_color_and_depth_of_the_pass() {
    for bits in 0u8..8 {
        let mut view = inputs(1, 1);
        view.config.clear_color_config = ClearColorConfig::Default;
        view.prepass = PrepassFlags {
            has_depth: bits & 1 != 0,
            has_normal: bits & 2 != 0,
            has_motion_vector: bits & 4 != 0,
            has_deferred: true,
        };
        let config = pass_config(&run(&view, &Replies::succeeding(None)));
        assert_eq!(config.color_attachment.ops.load, LoadOp::Load);
        assert_eq!(config.depth_stencil_attachment.depth_ops.unwrap().load, LoadOp::Load);
    }
}

#[test]
fn ready_skybox_adds_one_draw_after_the_geometry() {
    let view = with_skybox(inputs(2, 1));
    let record = run(&view, &Replies::succeeding(Some(Pipeline(9))));
    assert_eq!(record.result, Ok(()));
    assert_eq!(count(&record, is_draw), 1);
    let config = pass_config(&record);
    assert_eq!(
        record.actions,
        vec![
            Action::BeginPass(config),
            Action::BeginPhase(PhaseKind::Opaque),
            Action::DrawItem { phase: PhaseKind::Opaque, index: 0 },
            Action::DrawItem { phase: PhaseKind::Opaque, index: 1 },
            Action::BeginPhase(PhaseKind::AlphaMask),
            Action::DrawItem { phase: PhaseKind::AlphaMask, index: 0 },
            Action::LookupPipeline(PipelineId(7)),
            Action::SetPipeline(Pipeline(9)),
            Action::SetBindGroup { slot: 0, bind_group: BindGroup(8), offset: 768 },
            Action::Draw(DrawCall { first_vertex: 0, vertex_count: 3, first_instance: 0, instance_count: 1 }),
            Action::EndPass,
            Action::Finish(Ok(())),
        ]
    );
    let without = run(&inputs(2, 1), &Replies::succeeding(Some(Pipeline(9))));
    assert_eq!(record.actions.len(), without.actions.len() + 4);
}

#[test]
fn skybox_without_pipeline_handle_is_not_drawn() {
    let mut view = inputs(2, 1);
    view.skybox_bind_group = Some(BindGroup(8));
    let record = run(&view, &Replies::succeeding(Some(Pipeline(9))));
    assert_eq!(record.result, Ok(()));
    assert_eq!(count(&record, is_draw), 0);
    assert_eq!(count(&record, is_skybox_command), 0);
    assert_eq!(count(&record, is_lookup), 0);
    assert_eq!(record, run(&inputs(2, 1), &Replies::succeeding(Some(Pipeline(9)))));
}

#[test]
fn skybox_without_bind_group_is_not_drawn() {
    let mut view = inputs(2, 1);
    view.skybox_pipeline = Some(PipelineId(7));
    let record = run(&view, &Replies::succeeding(Some(Pipeline(9))));
    assert_eq!(record.result, Ok(()));
    assert_eq!(count(&record, is_skybox_command), 0);
    assert_eq!(count(&record, is_lookup), 0);
}

#[test]
fn skybox_whose_pipeline_is_not_ready_is_not_drawn() {
    let view = with_skybox(inputs(2, 1));
    let record = run(&view, &Replies::succeeding(None));
    assert_eq!(record.result, Ok(()));
    assert_eq!(count(&record, is_lookup), 1);
    assert_eq!(count(&record, is_skybox_command), 0);
    let len = record.actions.len();
    assert_eq!(record.actions[len - 3], Action::LookupPipeline(PipelineId(7)));
    assert_eq!(record.actions[len - 2], Action::EndPass);
}

#[test]
fn skybox_is_drawn_only_when_present_and_ready() {
    for has_pipeline in [false, true] {
        for has_bind_group in [false, true] {
            for ready in [false, true] {
                let mut view = inputs(1, 1);
                if has_pipeline {
                    view.skybox_pipeline = Some(PipelineId(7));
                }
                if has_bind_group {
                    view.skybox_bind_group = Some(BindGroup(8));
                }
                let compiled = if ready { Some(Pipeline(9)) } else { None };
                let record = run(&view, &Replies::succeeding(compiled));
                let expected = if has_pipeline && has_bind_group && ready { 1 } else { 0 };
                assert_eq!(count(&record, is_draw), expected);
                assert_eq!(record.result, Ok(()));
            }
        }
    }
}

#[test]
fn skybox_draw_is_the_fullscreen_triangle() {
    let record = run(&with_skybox(inputs(0, 0)), &Replies::succeeding(Some(Pipeline(9))));
    let len = record.actions.len();
    assert_eq!(record.actions[len - 3], Action::Draw(fullscreen_triangle()));
}

#[test]
fn opaque_phase_runs_once_even_without_items() {
    let record = run(&inputs(0, 0), &Replies::succeeding(None));
    assert_eq!(record.result, Ok(()));
    assert_eq!(count(&record, begins_opaque), 1);
    assert_eq!(count(&record, is_begin_pass), 1);
    assert_eq!(count(&record, is_end_pass), 1);
    assert_eq!(draws_of(&record, PhaseKind::Opaque), Vec::<usize>::new());
    assert_eq!(
        record.actions,
        vec![
            Action::BeginPass(pass_config(&record)),
            Action::BeginPhase(PhaseKind::Opaque),
            Action::EndPass,
            Action::Finish(Ok(())),
        ]
    );
}

#[test]
fn later_phases_run_behind_an_empty_opaque_phase() {
    let record = run(&with_skybox(inputs(0, 2)), &Replies::succeeding(Some(Pipeline(9))));
    assert_eq!(count(&record, begins_opaque), 1);
    assert_eq!(count(&record, begins_alpha_mask), 1);
    assert_eq!(draws_of(&record, PhaseKind::AlphaMask), vec![0, 1]);
    assert_eq!(count(&record, is_draw), 1);
}

#[test]
fn opaque_phase_runs_once_whatever_the_inputs() {
    for opaque_items in 0..4 {
        for alpha_mask_items in 0..3 {
            for failure in [None, Some(0), Some(2), Some(9)] {
                let replies = Replies { pipeline: Some(Pipeline(9)), opaque_failure: failure, alpha_mask_failure: failure };
                let record = run(&with_skybox(inputs(opaque_items, alpha_mask_items)), &replies);
                assert_eq!(count(&record, begins_opaque), 1);
            }
        }
    }
}

#[test]
fn alpha_mask_phase_runs_only_with_items() {
    for opaque_items in 0..4 {
        for alpha_mask_items in 0..4 {
            let record = run(&inputs(opaque_items, alpha_mask_items), &Replies::succeeding(None));
            let expected = if alpha_mask_items > 0 { 1 } else { 0 };
            assert_eq!(count(&record, begins_alpha_mask), expected);
            assert_eq!(draws_of(&record, PhaseKind::AlphaMask).len(), alpha_mask_items);
            assert_eq!(draws_of(&record, PhaseKind::Opaque).len(), opaque_items);
        }
    }
}

#[test]
fn empty_alpha_mask_phase_records_no_draw() {
    let record = run(&inputs(3, 0), &Replies::succeeding(None));
    assert_eq!(draws_of(&record, PhaseKind::AlphaMask), Vec::<usize>::new());
    assert_eq!(count(&record, begins_alpha_mask), 0);
}

#[test]
fn viewport_is_applied_before_any_draw() {
    let viewport = Viewport { x: 10, y: 20, width: 640, height: 480 };
    let mut view = inputs(1, 1);
    view.viewport = Some(viewport);
    let record = run(&view, &Replies::succeeding(None));
    assert_eq!(pass_config(&record).viewport, Some(viewport));
    assert_eq!(record.actions[1], Action::SetViewport(viewport));
    assert_eq!(record.actions[2], Action::BeginPhase(PhaseKind::Opaque));
    assert_eq!(record.actions.len(), 8);
}

#[test]
fn failing_opaque_draw_cuts_the_pass_short() {
    let view = with_skybox(inputs(4, 3));
    let replies = Replies { pipeline: Some(Pipeline(9)), opaque_failure: Some(1), alpha_mask_failure: None };
    let record = run(&view, &replies);
    let failure = RunError::DrawFailed { phase: PhaseKind::Opaque, index: 1 };
    assert_eq!(record.result, Err(failure));
    assert_eq!(
        record.actions,
        vec![
            Action::BeginPass(pass_config(&record)),
            Action::BeginPhase(PhaseKind::Opaque),
            Action::DrawItem { phase: PhaseKind::Opaque, index: 0 },
            Action::DrawItem { phase: PhaseKind::Opaque, index: 1 },
            Action::EndPass,
            Action::Finish(Err(failure)),
        ]
    );
}

#[test]
fn failing_alpha_mask_draw_cuts_the_pass_short() {
    let view = with_skybox(inputs(1, 3));
    let replies = Replies { pipeline: Some(Pipeline(9)), opaque_failure: None, alpha_mask_failure: Some(0) };
    let record = run(&view, &replies);
    let failure = RunError::DrawFailed { phase: PhaseKind::AlphaMask, index: 0 };
    assert_eq!(record.result, Err(failure));
    assert_eq!(
        record.actions,
        vec![
            Action::BeginPass(pass_config(&record)),
            Action::BeginPhase(PhaseKind::Opaque),
            Action::DrawItem { phase: PhaseKind::Opaque, index: 0 },
            Action::BeginPhase(PhaseKind::AlphaMask),
            Action::DrawItem { phase: PhaseKind::AlphaMask, index: 0 },
            Action::EndPass,
            Action::Finish(Err(failure)),
        ]
    );
}

#[test]
fn failing_opaque_draw_keeps_the_alpha_mask_phase_from_running() {
    let replies = Replies { pipeline: None, opaque_failure: Some(0), alpha_mask_failure: None };
    let record = run(&inputs(1, 1), &replies);
    assert_eq!(count(&record, begins_alpha_mask), 0);
    assert_eq!(record.result, Err(RunError::DrawFailed { phase: PhaseKind::Opaque, index: 0 }));
}

#[test]
fn first_failure_is_the_one_returned() {
    let replies = Replies { pipeline: None, opaque_failure: Some(2), alpha_mask_failure: Some(0) };
    let record = run(&inputs(3, 3), &replies);
    assert_eq!(record.result, Err(RunError::DrawFailed { phase: PhaseKind::Opaque, index: 2 }));
    assert_eq!(draws_of(&record, PhaseKind::Opaque), vec![0, 1, 2]);
    assert_eq!(draws_of(&record, PhaseKind::AlphaMask), Vec::<usize>::new());
}

#[test]
fn failure_of_an_item_that_does_not_exist_changes_nothing() {
    let replies = Replies { pipeline: None, opaque_failure: Some(3), alpha_mask_failure: Some(2) };
    let record = run(&inputs(3, 2), &replies);
    assert_eq!(record.result, Ok(()));
    assert_eq!(record, run(&inputs(3, 2), &Replies::succeeding(None)));
}

#[test]
fn failure_in_an_empty_alpha_mask_phase_changes_nothing() {
    let replies = Replies { pipeline: None, opaque_failure: None, alpha_mask_failure: Some(0) };
    let record = run(&inputs(2, 0), &replies);
    assert_eq!(record.result, Ok(()));
    assert_eq!(count(&record, begins_alpha_mask), 0);
}

#[test]
fn pass_is_ended_on_every_path() {
    for opaque_failure in [None, Some(0), Some(1)] {
        for alpha_mask_failure in [None, Some(0), Some(1)] {
            for pipeline in [None, Some(Pipeline(9))] {
                let replies = Replies { pipeline, opaque_failure, alpha_mask_failure };
                let record = run(&with_skybox(inputs(2, 2)), &replies);
                let len = record.actions.len();
                assert_eq!(count(&record, is_begin_pass), 1);
                assert_eq!(count(&record, is_end_pass), 1);
                assert_eq!(count(&record, is_finish), 1);
                assert!(is_begin_pass(&record.actions[0]));
                assert_eq!(record.actions[len - 2], Action::EndPass);
                assert_eq!(record.actions[len - 1], Action::Finish(record.result));
            }
        }
    }
}

#[test]
fn actions_come_in_the_fixed_order() {
    let viewport = Viewport { x: 0, y: 0, width: 64, height: 64 };
    for opaque_failure in [None, Some(1)] {
        for alpha_mask_failure in [None, Some(1)] {
            let mut view = with_skybox(inputs(3, 3));
            view.viewport = Some(viewport);
            let replies = Replies { pipeline: Some(Pipeline(9)), opaque_failure, alpha_mask_failure };
            let record = run(&view, &replies);
            for pair in record.actions.windows(2) {
                assert!(order_of(&pair[0]) <= order_of(&pair[1]));
            }
        }
    }
}

#[test]
fn items_are_drawn_in_stored_order() {
    let record = run(&inputs(6, 5), &Replies::succeeding(None));
    assert_eq!(draws_of(&record, PhaseKind::Opaque), vec![0, 1, 2, 3, 4, 5]);
    assert_eq!(draws_of(&record, PhaseKind::AlphaMask), vec![0, 1, 2, 3, 4]);
}

#[test]
fn run_records_what_the_steps_issue() {
    let viewport = Viewport { x: 0, y: 0, width: 64, height: 64 };
    for opaque_items in 0..3 {
        for alpha_mask_items in 0..3 {
            for opaque_failure in [None, Some(0), Some(1), Some(5)] {
                for alpha_mask_failure in [None, Some(0), Some(1)] {
                    for pipeline in [None, Some(Pipeline(9))] {
                        let mut view = with_skybox(inputs(opaque_items, alpha_mask_items));
                        view.viewport = Some(viewport);
                        let replies = Replies { pipeline, opaque_failure, alpha_mask_failure };
                        assert_eq!(run(&view, &replies), drive(&view, &replies));
                    }
                }
            }
        }
    }
}

#[test]
fn replies_answer_the_awaited_action() {
    let replies = Replies { pipeline: Some(Pipeline(9)), opaque_failure: Some(1), alpha_mask_failure: Some(0) };
    assert_eq!(replies.answer(&Stage::Opening), Event::Done);
    assert_eq!(replies.answer(&Stage::DrawingItem { phase: PhaseKind::Opaque, index: 0 }), Event::Done);
    assert_eq!(replies.answer(&Stage::DrawingItem { phase: PhaseKind::Opaque, index: 1 }), Event::DrawFailed);
    assert_eq!(replies.answer(&Stage::DrawingItem { phase: PhaseKind::AlphaMask, index: 0 }), Event::DrawFailed);
    assert_eq!(replies.answer(&Stage::DrawingItem { phase: PhaseKind::AlphaMask, index: 1 }), Event::Done);
    let sky = opaque_pass::skybox::SkyboxResources {
        pipeline: PipelineId(7),
        bind_group: BindGroup(8),
        view_uniform_offset: 0,
    };
    assert_eq!(replies.answer(&Stage::LookingUp(sky)), Event::Pipeline(Some(Pipeline(9))));
    assert_eq!(Replies::succeeding(None).answer(&Stage::LookingUp(sky)), Event::Pipeline(None));
    assert_eq!(replies.answer(&Stage::Closing(Ok(()))), Event::Done);
}

#[test]
fn succeeding_replies_fail_nowhere() {
    assert_eq!(
        Replies::succeeding(Some(Pipeline(3))),
        Replies { pipeline: Some(Pipeline(3)), opaque_failure: None, alpha_mask_failure: None }
    );
}

#[test]
fn same_inputs_give_the_same_pass() {
    let view = with_skybox(inputs(3, 2));
    let replies = Replies::succeeding(Some(Pipeline(9)));
    assert_eq!(run(&view, &replies), run(&view, &replies));
}
