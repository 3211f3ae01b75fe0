//! The whole course of a pass: every action it issues, in order.
//!
//! Which actions a pass issues depends on its inputs and on what the world
//! outside answers: whether a draw fails, and what the pipeline cache holds.
//! [`pass_actions`] writes the course down as one sequence, and
//! [`MainOpaquePass3dNode::run`] shows that the node, moved step by step
//! with those answers, issues exactly that sequence.

use vstd::prelude::*;
use crate::node::{
    action_of, next_stage, skybox_stage, stage_after_items, stage_after_phase, Action, Event,
    MainOpaquePass3dNode, PassInputs, PhaseKind, RunError, Stage,
};
use crate::skybox::{fullscreen_triangle, Pipeline, SkyboxResources, SKYBOX_BIND_GROUP_INDEX};

verus! {

/// What the world outside answers in the course of one pass.
#[derive(Clone, Copy, Debug, PartialEq, Eq)]
pub struct Replies {
    /// What the pipeline cache holds for the skybox's pipeline.
    pub pipeline: Option<Pipeline>,
    /// Index of the first item of the opaque phase whose draw fails. No
    /// draw of the phase fails where this is absent or names no item.
    pub opaque_failure: Option<usize>,
    /// Index of the first item of the alpha-mask phase whose draw fails.
    pub alpha_mask_failure: Option<usize>,
}

/// The actions of a pass and the result it returns.
#[derive(Debug, PartialEq, Eq)]
pub struct PassRecord<C, D> {
    pub actions: Vec<Action<C, D>>,
    pub result: Result<(), RunError>,
}

impl Replies {
    /// Index of the first item of the phase whose draw fails.
    pub open spec fn failure(self, kind: PhaseKind) -> Option<usize> {
        match kind {
            PhaseKind::Opaque => self.opaque_failure,
            PhaseKind::AlphaMask => self.alpha_mask_failure,
        }
    }

    /// The event that answers the action awaited at a stage.
    pub open spec fn event_for(self, stage: Stage) -> Event {
        match stage {
            Stage::DrawingItem { phase, index } => if self.failure(phase) == Some(index) {
                Event::DrawFailed
            } else {
                Event::Done
            },
            Stage::LookingUp(_) => Event::Pipeline(self.pipeline),
            _ => Event::Done,
        }
    }

    /// Nothing fails, and the pipeline cache holds `pipeline`.
    pub fn succeeding(pipeline: Option<Pipeline>) -> (replies: Replies)
        ensures
            replies == (Replies { pipeline, opaque_failure: None, alpha_mask_failure: None }),
    {
        Replies { pipeline, opaque_failure: None, alpha_mask_failure: None }
    }

    /// Answers the action awaited at a stage.
    pub fn answer(&self, stage: &Stage) -> (event: Event)
        ensures
            event == self.event_for(*stage),
    {
        match stage {
            Stage::DrawingItem { phase, index } => {
                let failure = match phase {
                    PhaseKind::Opaque => self.opaque_failure,
                    PhaseKind::AlphaMask => self.alpha_mask_failure,
                };
                match failure {
                    Some(failing) => if failing == *index {
                        Event::DrawFailed
                    } else {
                        Event::Done
                    },
                    None => Event::Done,
                }
            },
            Stage::LookingUp(_) => Event::Pipeline(self.pipeline),
            _ => Event::Done,
        }
    }
}

/// The draw of some item of the phase fails.
pub open spec fn phase_fails<C, D>(
    inputs: PassInputs<C, D>,
    replies: Replies,
    kind: PhaseKind,
) -> bool {
    replies.failure(kind) matches Some(failing) && failing < inputs.item_count(kind)
}

/// Number of items of the phase whose draw is attempted: all of them, or
/// those up to and including the one that fails.
pub open spec fn items_attempted<C, D>(
    inputs: PassInputs<C, D>,
    replies: Replies,
    kind: PhaseKind,
) -> nat {
    if phase_fails(inputs, replies, kind) {
        (replies.failure(kind)->0 + 1) as nat
    } else {
        inputs.item_count(kind) as nat
    }
}

/// What a pass returns: the failure of the first draw that fails, if any.
pub open spec fn pass_result<C, D>(inputs: PassInputs<C, D>, replies: Replies) -> Result<
    (),
    RunError,
> {
    if phase_fails(inputs, replies, PhaseKind::Opaque) {
        Err(RunError::DrawFailed { phase: PhaseKind::Opaque, index: replies.opaque_failure->0 })
    } else if phase_fails(inputs, replies, PhaseKind::AlphaMask) {
        Err(
            RunError::DrawFailed {
                phase: PhaseKind::AlphaMask,
                index: replies.alpha_mask_failure->0,
            },
        )
    } else {
        Ok(())
    }
}

/// Opening the pass: the render pass is begun, then the viewport applied
/// where the view has one.
pub open spec fn opening_actions<C, D>(inputs: PassInputs<C, D>) -> Seq<Action<C, D>> {
    match inputs.viewport {
        Some(viewport) => seq![
            Action::BeginPass(inputs.render_pass()),
            Action::SetViewport(viewport),
        ],
        None => seq![Action::BeginPass(inputs.render_pass())],
    }
}

/// One phase: it is begun, then its first `attempted` items are drawn in
/// stored order.
pub open spec fn phase_actions<C, D>(kind: PhaseKind, attempted: nat) -> Seq<Action<C, D>> {
    seq![Action::BeginPhase(kind)] + Seq::new(
        attempted,
        |i: int| Action::DrawItem { phase: kind, index: i as usize },
    )
}

/// The alpha-mask phase, which is run only where it has items.
pub open spec fn alpha_mask_actions<C, D>(inputs: PassInputs<C, D>, replies: Replies) -> Seq<
    Action<C, D>,
> {
    if inputs.alpha_mask_items > 0 {
        phase_actions(
            PhaseKind::AlphaMask,
            items_attempted(inputs, replies, PhaseKind::AlphaMask),
        )
    } else {
        Seq::empty()
    }
}

/// The skybox: nothing without its resources; with them, the lookup of the
/// pipeline and, where that is compiled, the three commands that draw it.
pub open spec fn skybox_actions<C, D>(
    skybox: Option<SkyboxResources>,
    compiled: Option<Pipeline>,
) -> Seq<Action<C, D>> {
    match skybox {
        None => Seq::empty(),
        Some(resources) => match compiled {
            None => seq![Action::LookupPipeline(resources.pipeline)],
            Some(pipeline) => seq![
                Action::LookupPipeline(resources.pipeline),
                Action::SetPipeline(pipeline),
                Action::SetBindGroup {
                    slot: SKYBOX_BIND_GROUP_INDEX,
                    bind_group: resources.bind_group,
                    offset: resources.view_uniform_offset,
                },
                Action::Draw(fullscreen_triangle()),
            ],
        },
    }
}

/// What is drawn between opening and ending the pass. A failing draw cuts
/// short what would follow it.
pub open spec fn drawing_actions<C, D>(inputs: PassInputs<C, D>, replies: Replies) -> Seq<
    Action<C, D>,
> {
    let opaque = phase_actions(
        PhaseKind::Opaque,
        items_attempted(inputs, replies, PhaseKind::Opaque),
    );
    if phase_fails(inputs, replies, PhaseKind::Opaque) {
        opaque
    } else if phase_fails(inputs, replies, PhaseKind::AlphaMask) {
        opaque + alpha_mask_actions(inputs, replies)
    } else {
        opaque + alpha_mask_actions(inputs, replies) + skybox_actions(
            inputs.skybox(),
            replies.pipeline,
        )
    }
}

/// Ending the pass: the render pass is ended and the result returned.
pub open spec fn closing_actions<C, D>(inputs: PassInputs<C, D>, replies: Replies) -> Seq<
    Action<C, D>,
> {
    seq![Action::EndPass, Action::Finish(pass_result(inputs, replies))]
}

/// Every action of a pass, in the order of issue.
pub open spec fn pass_actions<C, D>(inputs: PassInputs<C, D>, replies: Replies) -> Seq<
    Action<C, D>,
> {
    opening_actions(inputs) + drawing_actions(inputs, replies) + closing_actions(inputs, replies)
}

/// The stage lies on the course that the pass takes under these replies.
spec fn on_course<C, D>(inputs: PassInputs<C, D>, replies: Replies, stage: Stage) -> bool {
    let opaque_fails = phase_fails(inputs, replies, PhaseKind::Opaque);
    let any_fails = opaque_fails || phase_fails(inputs, replies, PhaseKind::AlphaMask);
    match stage {
        Stage::Opening => true,
        Stage::SettingViewport(viewport) => inputs.viewport == Some(viewport),
        Stage::BeginningPhase(PhaseKind::Opaque) => true,
        Stage::BeginningPhase(PhaseKind::AlphaMask) => !opaque_fails && inputs.alpha_mask_items
            > 0,
        Stage::DrawingItem { phase, index } => {
            &&& phase == PhaseKind::AlphaMask ==> !opaque_fails
            &&& index < items_attempted(inputs, replies, phase)
        },
        Stage::LookingUp(resources) => !any_fails && inputs.skybox() == Some(resources),
        Stage::BindingPipeline(resources, pipeline) => {
            &&& !any_fails
            &&& inputs.skybox() == Some(resources)
            &&& replies.pipeline == Some(pipeline)
        },
        Stage::BindingGroup(resources) => {
            &&& !any_fails
            &&& inputs.skybox() == Some(resources)
            &&& replies.pipeline is Some
        },
        Stage::DrawingSkybox => {
            &&& !any_fails
            &&& inputs.skybox() is Some
            &&& replies.pipeline is Some
        },
        Stage::Closing(result) => result == pass_result(inputs, replies),
        Stage::Finished(result) => result == pass_result(inputs, replies),
    }
}

/// Number of actions issued once a stage on the course is entered.
spec fn issued<C, D>(inputs: PassInputs<C, D>, replies: Replies, stage: Stage) -> int {
    let opened = opening_actions(inputs).len() as int;
    let drawn = opened + 1 + inputs.opaque_items + alpha_mask_actions(inputs, replies).len();
    match stage {
        Stage::Opening => 1,
        Stage::SettingViewport(_) => 2,
        Stage::BeginningPhase(PhaseKind::Opaque) => opened + 1,
        Stage::DrawingItem { phase: PhaseKind::Opaque, index } => opened + 1 + index + 1,
        Stage::BeginningPhase(PhaseKind::AlphaMask) => opened + 1 + inputs.opaque_items + 1,
        Stage::DrawingItem { phase: PhaseKind::AlphaMask, index } => opened + 1
            + inputs.opaque_items + 1 + index + 1,
        Stage::LookingUp(_) => drawn + 1,
        Stage::BindingPipeline(_, _) => drawn + 2,
        Stage::BindingGroup(_) => drawn + 3,
        Stage::DrawingSkybox => drawn + 4,
        Stage::Closing(_) => pass_actions(inputs, replies).len() - 1,
        Stage::Finished(_) => pass_actions(inputs, replies).len() as int,
    }
}

/// Entering `next` issues the action that stands at position `at` of the
/// sequence, and keeps the pass on its course.
spec fn follows<C, D>(inputs: PassInputs<C, D>, replies: Replies, at: int, next: Stage) -> bool {
    &&& on_course(inputs, replies, next)
    &&& issued(inputs, replies, next) == at + 1
    &&& 0 <= at < pass_actions(inputs, replies).len()
    &&& pass_actions(inputs, replies)[at] == action_of(inputs, next)
}

/// Number of actions issued before a phase is begun.
pub(crate) open spec fn issued_before_phase<C, D>(inputs: PassInputs<C, D>, kind: PhaseKind) -> int {
    match kind {
        PhaseKind::Opaque => opening_actions(inputs).len() as int,
        PhaseKind::AlphaMask => opening_actions(inputs).len() + 1 + inputs.opaque_items,
    }
}

/// Number of actions issued once the geometry phases have completed.
pub(crate) open spec fn issued_by_geometry<C, D>(inputs: PassInputs<C, D>, replies: Replies) -> int {
    opening_actions(inputs).len() + 1 + inputs.opaque_items + alpha_mask_actions(
        inputs,
        replies,
    ).len()
}

/// The phase is reached on the course of the pass.
pub(crate) open spec fn phase_reached<C, D>(inputs: PassInputs<C, D>, replies: Replies, kind: PhaseKind) -> bool {
    kind == PhaseKind::AlphaMask ==> inputs.alpha_mask_items > 0 && !phase_fails(
        inputs,
        replies,
        PhaseKind::Opaque,
    )
}

/// The lengths of the parts of the sequence.
pub(crate) proof fn lemma_part_lengths<C, D>(inputs: PassInputs<C, D>, replies: Replies)
    ensures
        opening_actions(inputs).len() == (if inputs.viewport is Some {
            2nat
        } else {
            1nat
        }),
        forall|kind: PhaseKind, attempted: nat|
            (#[trigger] phase_actions::<C, D>(kind, attempted)).len() == attempted + 1,
        closing_actions(inputs, replies).len() == 2,
        pass_actions(inputs, replies).len() == opening_actions(inputs).len() + drawing_actions(
            inputs,
            replies,
        ).len() + 2,
{
}

/// The action at a position of the drawing part stands in the whole
/// sequence behind the opening part.
proof fn lemma_drawing_position<C, D>(inputs: PassInputs<C, D>, replies: Replies, i: int)
    requires
        0 <= i < drawing_actions(inputs, replies).len(),
    ensures
        pass_actions(inputs, replies)[opening_actions(inputs).len() + i] == drawing_actions(
            inputs,
            replies,
        )[i],
{
}

/// The action at a position of a phase.
proof fn lemma_phase_position<C, D>(kind: PhaseKind, attempted: nat, i: int)
    requires
        0 <= i <= attempted,
    ensures
        phase_actions::<C, D>(kind, attempted)[i] == (if i == 0 {
            Action::<C, D>::BeginPhase(kind)
        } else {
            Action::<C, D>::DrawItem { phase: kind, index: (i - 1) as usize }
        }),
{
}

/// The action at a position of a phase that is reached, within the whole
/// sequence.
pub(crate) proof fn lemma_phase_in_pass<C, D>(
    inputs: PassInputs<C, D>,
    replies: Replies,
    kind: PhaseKind,
    i: int,
)
    requires
        phase_reached(inputs, replies, kind),
        0 <= i <= items_attempted(inputs, replies, kind),
    ensures
        issued_before_phase(inputs, kind) + i < pass_actions(inputs, replies).len() - 2,
        pass_actions(inputs, replies)[issued_before_phase(inputs, kind) + i] == (if i == 0 {
            Action::<C, D>::BeginPhase(kind)
        } else {
            Action::<C, D>::DrawItem { phase: kind, index: (i - 1) as usize }
        }),
{
    lemma_part_lengths(inputs, replies);
    let opaque = phase_actions::<C, D>(
        PhaseKind::Opaque,
        items_attempted(inputs, replies, PhaseKind::Opaque),
    );
    let alpha = alpha_mask_actions(inputs, replies);
    let drawing = drawing_actions(inputs, replies);
    match kind {
        PhaseKind::Opaque => {
            lemma_phase_position::<C, D>(kind, items_attempted(inputs, replies, kind), i);
            assert(drawing[i] == opaque[i]);
            lemma_drawing_position(inputs, replies, i);
        },
        PhaseKind::AlphaMask => {
            lemma_phase_position::<C, D>(kind, items_attempted(inputs, replies, kind), i);
            assert(opaque.len() == inputs.opaque_items + 1);
            assert(drawing[opaque.len() + i] == alpha[i]);
            lemma_drawing_position(inputs, replies, opaque.len() + i);
        },
    }
}

/// The two closing actions stand last in the sequence.
pub(crate) proof fn lemma_closing_position<C, D>(inputs: PassInputs<C, D>, replies: Replies)
    ensures
        pass_actions(inputs, replies).len() >= 4,
        pass_actions(inputs, replies)[pass_actions(inputs, replies).len() - 2]
            == Action::<C, D>::EndPass,
        pass_actions(inputs, replies)[pass_actions(inputs, replies).len() - 1] == Action::<
            C,
            D,
        >::Finish(pass_result(inputs, replies)),
{
    lemma_part_lengths(inputs, replies);
    let closing = closing_actions(inputs, replies);
    let before = opening_actions(inputs) + drawing_actions(inputs, replies);
    assert(pass_actions(inputs, replies) == before + closing);
    assert((before + closing)[before.len() as int] == closing[0]);
    assert((before + closing)[before.len() as int + 1] == closing[1]);
}

/// The action at a position of the skybox part, within the whole sequence.
pub(crate) proof fn lemma_skybox_in_pass<C, D>(inputs: PassInputs<C, D>, replies: Replies, i: int)
    requires
        !phase_fails(inputs, replies, PhaseKind::Opaque),
        !phase_fails(inputs, replies, PhaseKind::AlphaMask),
        0 <= i < skybox_actions::<C, D>(inputs.skybox(), replies.pipeline).len(),
    ensures
        pass_actions(inputs, replies).len() == issued_by_geometry(inputs, replies)
            + skybox_actions::<C, D>(inputs.skybox(), replies.pipeline).len() + 2,
        pass_actions(inputs, replies)[issued_by_geometry(inputs, replies) + i] == skybox_actions::<
            C,
            D,
        >(inputs.skybox(), replies.pipeline)[i],
{
    lemma_part_lengths(inputs, replies);
    let opaque = phase_actions::<C, D>(
        PhaseKind::Opaque,
        items_attempted(inputs, replies, PhaseKind::Opaque),
    );
    let alpha = alpha_mask_actions(inputs, replies);
    let skybox = skybox_actions::<C, D>(inputs.skybox(), replies.pipeline);
    let drawing = drawing_actions(inputs, replies);
    assert(drawing == opaque + alpha + skybox);
    assert(opaque.len() == inputs.opaque_items + 1);
    assert(drawing[opaque.len() + alpha.len() + i] == skybox[i]);
    lemma_drawing_position(inputs, replies, opaque.len() + alpha.len() + i);
}

/// Ending the pass follows wherever everything before the closing part has
/// been issued.
proof fn lemma_enter_closing<C, D>(inputs: PassInputs<C, D>, replies: Replies, at: int)
    requires
        at == pass_actions(inputs, replies).len() - 2,
    ensures
        follows(inputs, replies, at, Stage::Closing(pass_result(inputs, replies))),
{
    lemma_closing_position(inputs, replies);
}

/// The stage entered after the geometry phases follows them.
proof fn lemma_enter_skybox<C, D>(inputs: PassInputs<C, D>, replies: Replies)
    requires
        !phase_fails(inputs, replies, PhaseKind::Opaque),
        !phase_fails(inputs, replies, PhaseKind::AlphaMask),
    ensures
        follows(inputs, replies, issued_by_geometry(inputs, replies), skybox_stage(inputs)),
{
    lemma_part_lengths(inputs, replies);
    let opaque = phase_actions::<C, D>(
        PhaseKind::Opaque,
        items_attempted(inputs, replies, PhaseKind::Opaque),
    );
    let alpha = alpha_mask_actions(inputs, replies);
    let skybox = skybox_actions::<C, D>(inputs.skybox(), replies.pipeline);
    assert(drawing_actions(inputs, replies) == opaque + alpha + skybox);
    assert(opaque.len() == inputs.opaque_items + 1);
    match inputs.skybox() {
        Some(resources) => {
            lemma_skybox_in_pass(inputs, replies, 0);
        },
        None => {
            assert(skybox.len() == 0);
            lemma_enter_closing(inputs, replies, issued_by_geometry(inputs, replies));
        },
    }
}

/// The stage entered after a completed phase follows it.
proof fn lemma_leave_phase<C, D>(inputs: PassInputs<C, D>, replies: Replies, kind: PhaseKind)
    requires
        phase_reached(inputs, replies, kind),
        !phase_fails(inputs, replies, kind),
    ensures
        follows(
            inputs,
            replies,
            issued_before_phase(inputs, kind) + 1 + inputs.item_count(kind),
            stage_after_phase(inputs, kind),
        ),
{
    lemma_part_lengths(inputs, replies);
    if kind == PhaseKind::Opaque && inputs.alpha_mask_items > 0 {
        lemma_phase_in_pass(inputs, replies, PhaseKind::AlphaMask, 0);
    } else {
        lemma_enter_skybox(inputs, replies);
    }
}

/// The stage entered once the first `drawn` items of a phase are drawn
/// follows them.
proof fn lemma_enter_items<C, D>(
    inputs: PassInputs<C, D>,
    replies: Replies,
    kind: PhaseKind,
    drawn: int,
)
    requires
        phase_reached(inputs, replies, kind),
        0 <= drawn <= inputs.item_count(kind),
        replies.failure(kind) matches Some(failing) ==> drawn <= failing,
    ensures
        follows(
            inputs,
            replies,
            issued_before_phase(inputs, kind) + 1 + drawn,
            stage_after_items(inputs, kind, drawn),
        ),
{
    if drawn < inputs.item_count(kind) {
        lemma_phase_in_pass(inputs, replies, kind, drawn + 1);
    } else {
        lemma_leave_phase(inputs, replies, kind);
    }
}

/// On the course of a pass, the event that the replies give leads to the
/// stage whose action stands next in the sequence.
proof fn lemma_step_follows_course<C, D>(inputs: PassInputs<C, D>, replies: Replies, stage: Stage)
    requires
        on_course(inputs, replies, stage),
        !(stage is Finished),
    ensures
        next_stage(inputs, stage, replies.event_for(stage)) is Some,
        follows(
            inputs,
            replies,
            issued(inputs, replies, stage),
            next_stage(inputs, stage, replies.event_for(stage))->0,
        ),
{
    lemma_part_lengths(inputs, replies);
    match stage {
        Stage::Opening => {
            match inputs.viewport {
                Some(viewport) => {
                    assert(pass_actions(inputs, replies)[1] == opening_actions(inputs)[1]);
                },
                None => {
                    lemma_phase_in_pass(inputs, replies, PhaseKind::Opaque, 0);
                },
            }
        },
        Stage::SettingViewport(_) => {
            lemma_phase_in_pass(inputs, replies, PhaseKind::Opaque, 0);
        },
        Stage::BeginningPhase(kind) => {
            lemma_enter_items(inputs, replies, kind, 0);
        },
        Stage::DrawingItem { phase, index } => {
            if replies.failure(phase) == Some(index) {
                lemma_enter_closing(
                    inputs,
                    replies,
                    issued_before_phase(inputs, phase) + 1 + index + 1,
                );
            } else {
                lemma_enter_items(inputs, replies, phase, index + 1);
            }
        },
        Stage::LookingUp(_) => {
            match replies.pipeline {
                Some(_) => {
                    lemma_skybox_in_pass(inputs, replies, 1);
                },
                None => {
                    lemma_skybox_in_pass(inputs, replies, 0);
                    lemma_enter_closing(inputs, replies, issued(inputs, replies, stage));
                },
            }
        },
        Stage::BindingPipeline(_, _) => {
            lemma_skybox_in_pass(inputs, replies, 2);
        },
        Stage::BindingGroup(_) => {
            lemma_skybox_in_pass(inputs, replies, 3);
        },
        Stage::DrawingSkybox => {
            lemma_skybox_in_pass(inputs, replies, 3);
            lemma_enter_closing(inputs, replies, issued(inputs, replies, stage));
        },
        Stage::Closing(_) => {
            lemma_closing_position(inputs, replies);
        },
        Stage::Finished(_) => {},
    }
}

impl MainOpaquePass3dNode {
    /// Runs a whole pass against the given replies and records every action
    /// the node issues on the way, together with the result it returns.
    pub fn run<C: Copy, D: Copy>(&self, inputs: &PassInputs<C, D>, replies: &Replies) -> (record:
        PassRecord<C, D>)
        ensures
            record.actions@ == pass_actions(*inputs, *replies),
            record.result == pass_result(*inputs, *replies),
    {
        let (first_stage, first_action) = self.start(inputs);
        let mut stage = first_stage;
        let mut actions: Vec<Action<C, D>> = Vec::new();
        actions.push(first_action);
        assert(actions@ =~= pass_actions(*inputs, *replies).take(1));
        loop
            invariant
                on_course(*inputs, *replies, stage),
                actions@ == pass_actions(*inputs, *replies).take(
                    issued(*inputs, *replies, stage),
                ),
                1 <= issued(*inputs, *replies, stage) <= pass_actions(*inputs, *replies).len(),
            decreases pass_actions(*inputs, *replies).len() - issued(*inputs, *replies, stage),
        {
            match stage.result() {
                Some(result) => {
                    assert(actions@ =~= pass_actions(*inputs, *replies));
                    return PassRecord { actions, result };
                },
                None => {},
            }
            let event = replies.answer(&stage);
            proof {
                lemma_step_follows_course(*inputs, *replies, stage);
            }
            let (next, action) = self.step(inputs, stage, event).unwrap();
            actions.push(action);
            assert(actions@ =~= pass_actions(*inputs, *replies).take(
                issued(*inputs, *replies, next),
            ));
            stage = next;
        }
    }
}

} // verus!
