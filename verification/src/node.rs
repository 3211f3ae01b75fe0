//! The pass as a state machine.
//!
//! The node never touches a GPU. It issues one [`Action`] at a time; the
//! caller carries the action out and reports an [`Event`], on which the node
//! decides the next action. The order is fixed: the render pass is opened,
//! the viewport is applied, the opaque phase is drawn, then the alpha-mask
//! phase if it has items, then the skybox if the view has one and its
//! pipeline is ready; the pass is ended and the result returned. An item
//! whose draw fails ends the pass at once, and the failure is returned.

use vstd::prelude::*;
use crate::load_ops::{
    color_load_op, depth_load_op, resolve_load_ops, PrepassFlags, ViewConfig,
};
use crate::render_pass::{
    build_render_pass, render_pass_config, Attachments, RenderPassConfig, Viewport,
};
use crate::skybox::{
    fullscreen_triangle, skybox_of, skybox_resources, BindGroup, DrawCall, Pipeline, PipelineId,
    SkyboxResources, SKYBOX_BIND_GROUP_INDEX,
};

verus! {

/// The two geometry phases of the pass.
#[derive(Clone, Copy, Debug, PartialEq, Eq)]
pub enum PhaseKind {
    /// Fully opaque geometry, sorted front to back by whoever filled the phase.
    Opaque,
    /// Geometry whose alpha is tested against a threshold.
    AlphaMask,
}

/// Everything one invocation of the node reads. All of it is resolved before
/// the node starts.
#[derive(Debug, PartialEq, Eq)]
pub struct PassInputs<C, D> {
    pub config: ViewConfig<C, D>,
    pub prepass: PrepassFlags,
    /// The process-wide default clear colour.
    pub default_clear_color: C,
    pub attachments: Attachments,
    pub viewport: Option<Viewport>,
    /// Number of items of the opaque phase. Items are drawn by their index
    /// in the phase, in stored order.
    pub opaque_items: usize,
    /// Number of items of the alpha-mask phase.
    pub alpha_mask_items: usize,
    pub skybox_pipeline: Option<PipelineId>,
    pub skybox_bind_group: Option<BindGroup>,
    pub view_uniform_offset: u32,
}

impl<C: Copy, D: Copy> Clone for PassInputs<C, D> {
    fn clone(&self) -> (cloned: Self)
        ensures
            cloned == *self,
    {
        *self
    }
}

impl<C: Copy, D: Copy> Copy for PassInputs<C, D> {
}

/// Why a pass did not complete.
#[derive(Clone, Copy, Debug, PartialEq, Eq)]
pub enum RunError {
    /// The draw of the item at `index` of `phase` failed.
    DrawFailed { phase: PhaseKind, index: usize },
}

/// What the node asks its caller to do next.
#[derive(Debug, PartialEq, Eq)]
pub enum Action<C, D> {
    /// Open the render pass, taking hold of both attachments.
    BeginPass(RenderPassConfig<C, D>),
    /// Restrict rasterisation to the viewport.
    SetViewport(Viewport),
    /// Make the phase ready to draw. Issued even for a phase without items.
    BeginPhase(PhaseKind),
    /// Bind what the item needs and issue its draw call.
    DrawItem { phase: PhaseKind, index: usize },
    /// Ask the pipeline cache for the compiled pipeline.
    LookupPipeline(PipelineId),
    /// Bind the pipeline.
    SetPipeline(Pipeline),
    /// Bind the bind group at `slot`, at the dynamic `offset`.
    SetBindGroup { slot: u32, bind_group: BindGroup, offset: u32 },
    /// Issue the draw call.
    Draw(DrawCall),
    /// End the render pass, releasing both attachments.
    EndPass,
    /// Return the result. Nothing follows.
    Finish(Result<(), RunError>),
}

impl<C: Copy, D: Copy> Clone for Action<C, D> {
    fn clone(&self) -> (cloned: Self)
        ensures
            cloned == *self,
    {
        *self
    }
}

impl<C: Copy, D: Copy> Copy for Action<C, D> {
}

/// What the caller reports of the action it carried out.
#[derive(Clone, Copy, Debug, PartialEq, Eq)]
pub enum Event {
    /// The action was carried out.
    Done,
    /// The item could not be drawn.
    DrawFailed,
    /// The pipeline cache's answer: the compiled pipeline, or nothing while
    /// it is still compiling.
    Pipeline(Option<Pipeline>),
}

/// Where the pass stands: the action that was issued last and awaits its event.
#[derive(Clone, Copy, Debug, PartialEq, Eq)]
pub enum Stage {
    /// The render pass is being opened.
    Opening,
    /// The viewport is being applied.
    SettingViewport(Viewport),
    /// The phase is being begun.
    BeginningPhase(PhaseKind),
    /// The item at `index` of `phase` is being drawn.
    DrawingItem { phase: PhaseKind, index: usize },
    /// The skybox's pipeline is being looked up.
    LookingUp(SkyboxResources),
    /// The skybox's compiled pipeline is being bound.
    BindingPipeline(SkyboxResources, Pipeline),
    /// The skybox's bind group is being bound.
    BindingGroup(SkyboxResources),
    /// The skybox is being drawn.
    DrawingSkybox,
    /// The render pass is being ended; the pass will return this result.
    Closing(Result<(), RunError>),
    /// The pass has returned this result. No event is awaited.
    Finished(Result<(), RunError>),
}

impl Stage {
    /// The result of a finished pass.
    pub fn result(&self) -> (result: Option<Result<(), RunError>>)
        ensures
            result == (match *self {
                Stage::Finished(result) => Some(result),
                _ => None,
            }),
    {
        match self {
            Stage::Finished(result) => Some(*result),
            _ => None,
        }
    }
}

impl<C, D> PassInputs<C, D> {
    /// Number of items of the phase.
    pub open spec fn item_count(self, kind: PhaseKind) -> usize {
        match kind {
            PhaseKind::Opaque => self.opaque_items,
            PhaseKind::AlphaMask => self.alpha_mask_items,
        }
    }

    /// The view's skybox, present where both of its halves are.
    pub open spec fn skybox(self) -> Option<SkyboxResources> {
        skybox_of(self.skybox_pipeline, self.skybox_bind_group, self.view_uniform_offset)
    }

    /// The configuration with which the pass opens.
    pub open spec fn render_pass(self) -> RenderPassConfig<C, D> {
        render_pass_config(
            color_load_op(self.config.clear_color_config, self.prepass, self.default_clear_color),
            depth_load_op(self.config.depth_load_policy, self.prepass),
            self.attachments,
            self.viewport,
        )
    }
}

/// The stage that follows the geometry phases.
pub open spec fn skybox_stage<C, D>(inputs: PassInputs<C, D>) -> Stage {
    match inputs.skybox() {
        Some(resources) => Stage::LookingUp(resources),
        None => Stage::Closing(Ok(())),
    }
}

/// The stage that follows a phase all of whose items were drawn.
pub open spec fn stage_after_phase<C, D>(inputs: PassInputs<C, D>, kind: PhaseKind) -> Stage {
    match kind {
        PhaseKind::Opaque => if inputs.alpha_mask_items > 0 {
            Stage::BeginningPhase(PhaseKind::AlphaMask)
        } else {
            skybox_stage(inputs)
        },
        PhaseKind::AlphaMask => skybox_stage(inputs),
    }
}

/// The stage in which the first `drawn` items of a phase have been drawn.
pub open spec fn stage_after_items<C, D>(
    inputs: PassInputs<C, D>,
    kind: PhaseKind,
    drawn: int,
) -> Stage {
    if 0 <= drawn < inputs.item_count(kind) {
        Stage::DrawingItem { phase: kind, index: drawn as usize }
    } else {
        stage_after_phase(inputs, kind)
    }
}

/// The stage to which an event leads, or nothing where the event does not
/// answer the action that the stage awaits.
pub open spec fn next_stage<C, D>(inputs: PassInputs<C, D>, stage: Stage, event: Event) -> Option<
    Stage,
> {
    match (stage, event) {
        (Stage::Opening, Event::Done) => Some(
            match inputs.viewport {
                Some(viewport) => Stage::SettingViewport(viewport),
                None => Stage::BeginningPhase(PhaseKind::Opaque),
            },
        ),
        (Stage::SettingViewport(_), Event::Done) => Some(Stage::BeginningPhase(PhaseKind::Opaque)),
        (Stage::BeginningPhase(kind), Event::Done) => Some(stage_after_items(inputs, kind, 0)),
        (Stage::DrawingItem { phase, index }, Event::Done) => Some(
            stage_after_items(inputs, phase, index + 1),
        ),
        (Stage::DrawingItem { phase, index }, Event::DrawFailed) => Some(
            Stage::Closing(Err(RunError::DrawFailed { phase, index })),
        ),
        (Stage::LookingUp(resources), Event::Pipeline(Some(pipeline))) => Some(
            Stage::BindingPipeline(resources, pipeline),
        ),
        (Stage::LookingUp(_), Event::Pipeline(None)) => Some(Stage::Closing(Ok(()))),
        (Stage::BindingPipeline(resources, _), Event::Done) => Some(Stage::BindingGroup(resources)),
        (Stage::BindingGroup(_), Event::Done) => Some(Stage::DrawingSkybox),
        (Stage::DrawingSkybox, Event::Done) => Some(Stage::Closing(Ok(()))),
        (Stage::Closing(result), Event::Done) => Some(Stage::Finished(result)),
        _ => None,
    }
}

/// The action that is issued on entering a stage.
pub open spec fn action_of<C, D>(inputs: PassInputs<C, D>, stage: Stage) -> Action<C, D> {
    match stage {
        Stage::Opening => Action::BeginPass(inputs.render_pass()),
        Stage::SettingViewport(viewport) => Action::SetViewport(viewport),
        Stage::BeginningPhase(kind) => Action::BeginPhase(kind),
        Stage::DrawingItem { phase, index } => Action::DrawItem { phase, index },
        Stage::LookingUp(resources) => Action::LookupPipeline(resources.pipeline),
        Stage::BindingPipeline(_, pipeline) => Action::SetPipeline(pipeline),
        Stage::BindingGroup(resources) => Action::SetBindGroup {
            slot: SKYBOX_BIND_GROUP_INDEX,
            bind_group: resources.bind_group,
            offset: resources.view_uniform_offset,
        },
        Stage::DrawingSkybox => Action::Draw(fullscreen_triangle()),
        Stage::Closing(_) => Action::EndPass,
        Stage::Finished(result) => Action::Finish(result),
    }
}

/// One move of the pass: the stage an event leads to, with the action
/// issued on entering it.
pub open spec fn next_step<C, D>(inputs: PassInputs<C, D>, stage: Stage, event: Event) -> Option<
    (Stage, Action<C, D>),
> {
    match next_stage(inputs, stage, event) {
        Some(next) => Some((next, action_of(inputs, next))),
        None => None,
    }
}

/// The node that runs the opaque and alpha-mask phases of a view. It keeps
/// nothing from one pass to the next.
#[derive(Clone, Copy, Debug, PartialEq, Eq)]
pub struct MainOpaquePass3dNode;

impl Default for MainOpaquePass3dNode {
    fn default() -> (node: Self)
        ensures
            node == MainOpaquePass3dNode,
    {
        MainOpaquePass3dNode
    }
}

impl MainOpaquePass3dNode {
    /// Starts the pass for a view. The first action opens the render pass,
    /// with the load operations resolved from the camera's settings and the
    /// upstream passes that ran.
    pub fn start<C: Copy, D: Copy>(&self, inputs: &PassInputs<C, D>) -> (first: (
        Stage,
        Action<C, D>,
    ))
        ensures
            first.0 == Stage::Opening,
            first.1 == Action::BeginPass(inputs.render_pass()),
            first.1 == action_of(*inputs, Stage::Opening),
    {
        (Stage::Opening, issue(inputs, Stage::Opening))
    }

    /// Takes the event that answers the last action and issues the next one.
    /// Nothing is returned where the event does not answer the action that
    /// the stage awaits; a finished pass awaits none.
    pub fn step<C: Copy, D: Copy>(
        &self,
        inputs: &PassInputs<C, D>,
        stage: Stage,
        event: Event,
    ) -> (next: Option<(Stage, Action<C, D>)>)
        ensures
            next == next_step(*inputs, stage, event),
    {
        let entered = match stage {
            Stage::Opening => match event {
                Event::Done => match inputs.viewport {
                    Some(viewport) => Some(Stage::SettingViewport(viewport)),
                    None => Some(Stage::BeginningPhase(PhaseKind::Opaque)),
                },
                _ => None,
            },
            Stage::SettingViewport(_) => match event {
                Event::Done => Some(Stage::BeginningPhase(PhaseKind::Opaque)),
                _ => None,
            },
            Stage::BeginningPhase(kind) => match event {
                Event::Done => Some(enter_items(inputs, kind, 0)),
                _ => None,
            },
            Stage::DrawingItem { phase, index } => match event {
                Event::Done => if index < item_count(inputs, phase) {
                    Some(enter_items(inputs, phase, index + 1))
                } else {
                    Some(leave_phase(inputs, phase))
                },
                Event::DrawFailed => Some(
                    Stage::Closing(Err(RunError::DrawFailed { phase, index })),
                ),
                _ => None,
            },
            Stage::LookingUp(resources) => match event {
                Event::Pipeline(Some(pipeline)) => Some(
                    Stage::BindingPipeline(resources, pipeline),
                ),
                Event::Pipeline(None) => Some(Stage::Closing(Ok(()))),
                _ => None,
            },
            Stage::BindingPipeline(resources, _) => match event {
                Event::Done => Some(Stage::BindingGroup(resources)),
                _ => None,
            },
            Stage::BindingGroup(_) => match event {
                Event::Done => Some(Stage::DrawingSkybox),
                _ => None,
            },
            Stage::DrawingSkybox => match event {
                Event::Done => Some(Stage::Closing(Ok(()))),
                _ => None,
            },
            Stage::Closing(result) => match event {
                Event::Done => Some(Stage::Finished(result)),
                _ => None,
            },
            Stage::Finished(_) => None,
        };
        match entered {
            Some(next) => Some((next, issue(inputs, next))),
            None => None,
        }
    }
}

/// Number of items of the phase.
fn item_count<C, D>(inputs: &PassInputs<C, D>, kind: PhaseKind) -> (count: usize)
    ensures
        count == inputs.item_count(kind),
{
    match kind {
        PhaseKind::Opaque => inputs.opaque_items,
        PhaseKind::AlphaMask => inputs.alpha_mask_items,
    }
}

/// Enters the stage that follows the geometry phases.
fn enter_skybox<C, D>(inputs: &PassInputs<C, D>) -> (stage: Stage)
    ensures
        stage == skybox_stage(*inputs),
{
    match skybox_resources(
        inputs.skybox_pipeline,
        inputs.skybox_bind_group,
        inputs.view_uniform_offset,
    ) {
        Some(resources) => Stage::LookingUp(resources),
        None => Stage::Closing(Ok(())),
    }
}

/// Enters the stage that follows a phase all of whose items were drawn.
fn leave_phase<C, D>(inputs: &PassInputs<C, D>, kind: PhaseKind) -> (stage: Stage)
    ensures
        stage == stage_after_phase(*inputs, kind),
{
    match kind {
        PhaseKind::Opaque => if inputs.alpha_mask_items > 0 {
            Stage::BeginningPhase(PhaseKind::AlphaMask)
        } else {
            enter_skybox(inputs)
        },
        PhaseKind::AlphaMask => enter_skybox(inputs),
    }
}

/// Enters the stage in which the first `drawn` items of a phase have been drawn.
fn enter_items<C, D>(inputs: &PassInputs<C, D>, kind: PhaseKind, drawn: usize) -> (stage: Stage)
    ensures
        stage == stage_after_items(*inputs, kind, drawn as int),
{
    if drawn < item_count(inputs, kind) {
        Stage::DrawingItem { phase: kind, index: drawn }
    } else {
        leave_phase(inputs, kind)
    }
}

/// The action that is issued on entering a stage.
fn issue<C: Copy, D: Copy>(inputs: &PassInputs<C, D>, stage: Stage) -> (action: Action<C, D>)
    ensures
        action == action_of(*inputs, stage),
{
    match stage {
        Stage::Opening => {
            let (color_load, depth_load) = resolve_load_ops(
                inputs.config,
                inputs.prepass,
                inputs.default_clear_color,
            );
            Action::BeginPass(
                build_render_pass(color_load, depth_load, inputs.attachments, inputs.viewport),
            )
        },
        Stage::SettingViewport(viewport) => Action::SetViewport(viewport),
        Stage::BeginningPhase(kind) => Action::BeginPhase(kind),
        Stage::DrawingItem { phase, index } => Action::DrawItem { phase, index },
        Stage::LookingUp(resources) => Action::LookupPipeline(resources.pipeline),
        Stage::BindingPipeline(_, pipeline) => Action::SetPipeline(pipeline),
        Stage::BindingGroup(resources) => Action::SetBindGroup {
            slot: SKYBOX_BIND_GROUP_INDEX,
            bind_group: resources.bind_group,
            offset: resources.view_uniform_offset,
        },
        Stage::DrawingSkybox => Action::Draw(fullscreen_triangle()),
        Stage::Closing(_) => Action::EndPass,
        Stage::Finished(result) => Action::Finish(result),
    }
}

} // verus!
