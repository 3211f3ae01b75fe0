//! What holds of every pass, whatever its inputs and the replies it meets.
//!
//! Each law is stated over [`pass_actions`], the sequence that
//! [`MainOpaquePass3dNode::run`](crate::node::MainOpaquePass3dNode) records,
//! or over the load operations that the resolver computes.

use vstd::prelude::*;
use crate::load_ops::{
    color_load_op, depth_load_op, ClearColorConfig, DepthLoadPolicy, LoadOp, Operations,
    PrepassFlags, StoreOp,
};
use crate::node::{Action, PassInputs, PhaseKind, RunError};
use crate::skybox::{fullscreen_triangle, SKYBOX_BIND_GROUP_INDEX};
use crate::trace::{
    issued_before_phase, issued_by_geometry, items_attempted, lemma_closing_position,
    lemma_part_lengths, lemma_phase_in_pass, lemma_skybox_in_pass, opening_actions, pass_actions,
    pass_result, phase_fails, phase_reached, skybox_actions, Replies,
};

verus! {

/// Where any upstream pass has run, the depth attachment is loaded, whatever
/// the camera's depth policy.
pub proof fn lemma_depth_loaded_after_prepass<D>(policy: DepthLoadPolicy<D>, flags: PrepassFlags)
    requires
        flags.has_depth || flags.has_normal || flags.has_motion_vector || flags.has_deferred,
    ensures
        depth_load_op(policy, flags) == LoadOp::<D>::Load,
{
}

/// Where deferred lighting has run, the colour attachment is loaded,
/// whatever the camera's clear colour setting.
pub proof fn lemma_color_loaded_after_deferred<C>(
    config: ClearColorConfig<C>,
    flags: PrepassFlags,
    default_color: C,
)
    requires
        flags.has_deferred,
    ensures
        color_load_op(config, flags, default_color) == LoadOp::<C>::Load,
{
}

/// Where deferred lighting has not run, the camera's setting decides the
/// colour load operation: the default setting clears to the default colour,
/// a custom colour clears to that colour, and no clearing loads.
pub proof fn lemma_color_follows_camera<C>(
    config: ClearColorConfig<C>,
    flags: PrepassFlags,
    default_color: C,
)
    requires
        !flags.has_deferred,
    ensures
        config is Default ==> color_load_op(config, flags, default_color) == LoadOp::Clear(
            default_color,
        ),
        config matches ClearColorConfig::Custom(color) ==> color_load_op(
            config,
            flags,
            default_color,
        ) == LoadOp::Clear(color),
        config is Keep ==> color_load_op(config, flags, default_color) == LoadOp::<C>::Load,
{
}

/// The pass opens with the resolved load operations, stores both colour and
/// depth, leaves stencil alone and attaches no queries.
pub proof fn lemma_pass_opens_with_resolved_ops<C, D>(inputs: PassInputs<C, D>, replies: Replies)
    ensures
        pass_actions(inputs, replies)[0] == Action::BeginPass(inputs.render_pass()),
        inputs.render_pass().color_attachment.target == inputs.attachments.color_target,
        inputs.render_pass().color_attachment.ops == (Operations {
            load: color_load_op(
                inputs.config.clear_color_config,
                inputs.prepass,
                inputs.default_clear_color,
            ),
            store: StoreOp::Store,
        }),
        inputs.render_pass().depth_stencil_attachment.target == inputs.attachments.depth_target,
        inputs.render_pass().depth_stencil_attachment.depth_ops == Some(
            Operations {
                load: depth_load_op(inputs.config.depth_load_policy, inputs.prepass),
                store: StoreOp::Store,
            },
        ),
        inputs.render_pass().depth_stencil_attachment.stencil_ops is None,
        inputs.render_pass().timestamp_writes is None,
        inputs.render_pass().occlusion_query_set is None,
{
    lemma_part_lengths(inputs, replies);
    assert(pass_actions(inputs, replies)[0] == opening_actions(inputs)[0]);
}

/// What stands at a position of the sequence: one of the opening actions,
/// an action of a phase that is reached, an action of the skybox, or one of
/// the two closing actions.
spec fn placed<C, D>(inputs: PassInputs<C, D>, replies: Replies, i: int) -> bool {
    let actions = pass_actions(inputs, replies);
    let opaque_at = issued_before_phase(inputs, PhaseKind::Opaque);
    let alpha_at = issued_before_phase(inputs, PhaseKind::AlphaMask);
    let skybox_at = issued_by_geometry(inputs, replies);
    let skybox = skybox_actions::<C, D>(inputs.skybox(), replies.pipeline);
    ||| i == 0 && actions[i] == Action::BeginPass(inputs.render_pass())
    ||| i == 1 && inputs.viewport is Some && actions[i] == Action::<C, D>::SetViewport(
        inputs.viewport->0,
    )
    ||| i == opaque_at && actions[i] == Action::<C, D>::BeginPhase(PhaseKind::Opaque)
    ||| {
        &&& opaque_at < i <= opaque_at + items_attempted(inputs, replies, PhaseKind::Opaque)
        &&& actions[i] == Action::<C, D>::DrawItem {
            phase: PhaseKind::Opaque,
            index: (i - opaque_at - 1) as usize,
        }
    }
    ||| {
        &&& phase_reached(inputs, replies, PhaseKind::AlphaMask)
        &&& i == alpha_at
        &&& actions[i] == Action::<C, D>::BeginPhase(PhaseKind::AlphaMask)
    }
    ||| {
        &&& phase_reached(inputs, replies, PhaseKind::AlphaMask)
        &&& alpha_at < i <= alpha_at + items_attempted(inputs, replies, PhaseKind::AlphaMask)
        &&& actions[i] == Action::<C, D>::DrawItem {
            phase: PhaseKind::AlphaMask,
            index: (i - alpha_at - 1) as usize,
        }
    }
    ||| {
        &&& !phase_fails(inputs, replies, PhaseKind::Opaque)
        &&& !phase_fails(inputs, replies, PhaseKind::AlphaMask)
        &&& skybox_at <= i < skybox_at + skybox.len()
        &&& actions[i] == skybox[i - skybox_at]
    }
    ||| i == actions.len() - 2 && actions[i] == Action::<C, D>::EndPass
    ||| i == actions.len() - 1 && actions[i] == Action::<C, D>::Finish(
        pass_result(inputs, replies),
    )
}

/// Every position of the sequence is placed.
proof fn lemma_placed<C, D>(inputs: PassInputs<C, D>, replies: Replies, i: int)
    requires
        0 <= i < pass_actions(inputs, replies).len(),
    ensures
        placed(inputs, replies, i),
{
    let actions = pass_actions(inputs, replies);
    let opened = opening_actions(inputs).len() as int;
    lemma_part_lengths(inputs, replies);
    lemma_closing_position(inputs, replies);
    if i < opened {
        assert(actions[i] == opening_actions(inputs)[i]);
    } else if i >= actions.len() - 2 {
    } else if i - opened <= items_attempted(inputs, replies, PhaseKind::Opaque) {
        lemma_phase_in_pass(inputs, replies, PhaseKind::Opaque, i - opened);
    } else {
        let alpha_at = issued_before_phase(inputs, PhaseKind::AlphaMask);
        assert(!phase_fails(inputs, replies, PhaseKind::Opaque));
        if inputs.alpha_mask_items > 0 && i - alpha_at <= items_attempted(
            inputs,
            replies,
            PhaseKind::AlphaMask,
        ) {
            lemma_phase_in_pass(inputs, replies, PhaseKind::AlphaMask, i - alpha_at);
        } else {
            assert(!phase_fails(inputs, replies, PhaseKind::AlphaMask));
            lemma_skybox_in_pass(inputs, replies, i - issued_by_geometry(inputs, replies));
        }
    }
}

/// Exactly one render pass is opened and ended: the sequence begins by
/// opening it, ends by ending it and returning the result, and opens, ends
/// or returns nowhere else.
pub proof fn lemma_one_render_pass<C, D>(inputs: PassInputs<C, D>, replies: Replies)
    ensures
        pass_actions(inputs, replies).len() >= 4,
        forall|i: int|
            0 <= i < pass_actions(inputs, replies).len() ==> (#[trigger] pass_actions(
                inputs,
                replies,
            )[i] is BeginPass <==> i == 0),
        forall|i: int|
            0 <= i < pass_actions(inputs, replies).len() ==> (#[trigger] pass_actions(
                inputs,
                replies,
            )[i] is EndPass <==> i == pass_actions(inputs, replies).len() - 2),
        forall|i: int|
            0 <= i < pass_actions(inputs, replies).len() ==> (#[trigger] pass_actions(
                inputs,
                replies,
            )[i] is Finish <==> i == pass_actions(inputs, replies).len() - 1),
        pass_actions(inputs, replies).last() == Action::<C, D>::Finish(
            pass_result(inputs, replies),
        ),
{
    let actions = pass_actions(inputs, replies);
    lemma_part_lengths(inputs, replies);
    lemma_closing_position(inputs, replies);
    assert forall|i: int| 0 <= i < actions.len() implies (#[trigger] actions[i] is BeginPass <==> i
        == 0) && (actions[i] is EndPass <==> i == actions.len() - 2) && (actions[i] is Finish
        <==> i == actions.len() - 1) by {
        lemma_placed(inputs, replies, i);
    }
}

/// The viewport, where the view has one, is applied right after the pass
/// is opened, before anything is drawn; without one, none is applied.
pub proof fn lemma_viewport_applied_first<C, D>(inputs: PassInputs<C, D>, replies: Replies)
    ensures
        forall|i: int|
            0 <= i < pass_actions(inputs, replies).len() ==> (#[trigger] pass_actions(
                inputs,
                replies,
            )[i] is SetViewport <==> inputs.viewport is Some && i == 1),
        inputs.viewport matches Some(viewport) ==> pass_actions(inputs, replies)[1] == Action::<
            C,
            D,
        >::SetViewport(viewport),
{
    let actions = pass_actions(inputs, replies);
    lemma_part_lengths(inputs, replies);
    assert forall|i: int| 0 <= i < actions.len() implies (#[trigger] actions[i] is SetViewport
        <==> inputs.viewport is Some && i == 1) by {
        lemma_placed(inputs, replies, i);
    }
    if inputs.viewport is Some {
        lemma_placed(inputs, replies, 1);
    }
}

/// The opaque phase is begun exactly once in every pass, right after the
/// opening, whether or not it has items.
pub proof fn lemma_opaque_phase_begins_once<C, D>(inputs: PassInputs<C, D>, replies: Replies)
    ensures
        opening_actions(inputs).len() < pass_actions(inputs, replies).len(),
        forall|i: int|
            0 <= i < pass_actions(inputs, replies).len() ==> (#[trigger] pass_actions(
                inputs,
                replies,
            )[i] == Action::<C, D>::BeginPhase(PhaseKind::Opaque) <==> i == opening_actions(
                inputs,
            ).len()),
{
    let actions = pass_actions(inputs, replies);
    lemma_part_lengths(inputs, replies);
    lemma_phase_in_pass(inputs, replies, PhaseKind::Opaque, 0);
    assert forall|i: int| 0 <= i < actions.len() implies (#[trigger] actions[i] == Action::<
        C,
        D,
    >::BeginPhase(PhaseKind::Opaque) <==> i == opening_actions(inputs).len()) by {
        lemma_placed(inputs, replies, i);
    }
}

/// Unless a draw of the opaque phase fails, the alpha-mask phase is begun
/// exactly where it has items, and then once. Without items, nothing of the
/// phase is drawn.
pub proof fn lemma_alpha_mask_phase_runs_iff_nonempty<C, D>(
    inputs: PassInputs<C, D>,
    replies: Replies,
)
    requires
        !phase_fails(inputs, replies, PhaseKind::Opaque),
    ensures
        (exists|i: int|
            0 <= i < pass_actions(inputs, replies).len() && #[trigger] pass_actions(
                inputs,
                replies,
            )[i] == Action::<C, D>::BeginPhase(PhaseKind::AlphaMask)) <==> inputs.alpha_mask_items
            > 0,
        forall|i: int, j: int|
            0 <= i < j < pass_actions(inputs, replies).len() && #[trigger] pass_actions(
                inputs,
                replies,
            )[i] == Action::<C, D>::BeginPhase(PhaseKind::AlphaMask) ==> #[trigger] pass_actions(
                inputs,
                replies,
            )[j] != Action::<C, D>::BeginPhase(PhaseKind::AlphaMask),
        inputs.alpha_mask_items == 0 ==> forall|i: int|
            0 <= i < pass_actions(inputs, replies).len() ==> !(#[trigger] pass_actions(
                inputs,
                replies,
            )[i] matches Action::DrawItem { phase: PhaseKind::AlphaMask, .. }),
{
    let actions = pass_actions(inputs, replies);
    let begin = Action::<C, D>::BeginPhase(PhaseKind::AlphaMask);
    lemma_part_lengths(inputs, replies);
    assert forall|i: int| 0 <= i < actions.len() implies (#[trigger] actions[i] == begin ==> i
        == issued_before_phase(inputs, PhaseKind::AlphaMask) && inputs.alpha_mask_items > 0)
        && (inputs.alpha_mask_items == 0 ==> !(actions[i] matches Action::DrawItem {
        phase: PhaseKind::AlphaMask,
        ..
    })) by {
        lemma_placed(inputs, replies, i);
    }
    if inputs.alpha_mask_items > 0 {
        lemma_phase_in_pass(inputs, replies, PhaseKind::AlphaMask, 0);
        assert(actions[issued_before_phase(inputs, PhaseKind::AlphaMask)] == begin);
    }
}

/// Unless a draw fails, the skybox is drawn exactly where the view has both
/// its pipeline handle and its bind group and the pipeline cache holds the
/// compiled pipeline. It is then drawn once, as the last thing before the
/// pass ends: the pipeline is bound, the bind group is bound at the view's
/// uniform offset, and the triangle that covers the screen is drawn.
pub proof fn lemma_skybox_drawn_iff_ready<C, D>(inputs: PassInputs<C, D>, replies: Replies)
    requires
        !phase_fails(inputs, replies, PhaseKind::Opaque),
        !phase_fails(inputs, replies, PhaseKind::AlphaMask),
    ensures
        forall|i: int|
            0 <= i < pass_actions(inputs, replies).len() ==> (#[trigger] pass_actions(
                inputs,
                replies,
            )[i] is Draw <==> {
                &&& inputs.skybox_pipeline is Some
                &&& inputs.skybox_bind_group is Some
                &&& replies.pipeline is Some
                &&& i == pass_actions(inputs, replies).len() - 3
            }),
        inputs.skybox_pipeline is Some && inputs.skybox_bind_group is Some && replies.pipeline
            is Some ==> {
            let actions = pass_actions(inputs, replies);
            &&& actions.len() >= 7
            &&& actions[actions.len() - 5] == Action::<C, D>::SetPipeline(replies.pipeline->0)
            &&& actions[actions.len() - 4] == Action::<C, D>::SetBindGroup {
                slot: SKYBOX_BIND_GROUP_INDEX,
                bind_group: inputs.skybox_bind_group->0,
                offset: inputs.view_uniform_offset,
            }
            &&& actions[actions.len() - 3] == Action::<C, D>::Draw(fullscreen_triangle())
        },
{
    let actions = pass_actions(inputs, replies);
    lemma_part_lengths(inputs, replies);
    assert forall|i: int| 0 <= i < actions.len() implies (#[trigger] actions[i] is Draw <==> {
        &&& inputs.skybox_pipeline is Some
        &&& inputs.skybox_bind_group is Some
        &&& replies.pipeline is Some
        &&& i == actions.len() - 3
    }) by {
        lemma_placed(inputs, replies, i);
        if inputs.skybox() is Some && replies.pipeline is Some {
            lemma_skybox_in_pass(inputs, replies, 3);
        } else if inputs.skybox() is Some {
            lemma_skybox_in_pass(inputs, replies, 0);
        }
    }
    if inputs.skybox_pipeline is Some && inputs.skybox_bind_group is Some && replies.pipeline
        is Some {
        lemma_skybox_in_pass(inputs, replies, 1);
        lemma_skybox_in_pass(inputs, replies, 2);
        lemma_skybox_in_pass(inputs, replies, 3);
    }
}

/// A pipeline is looked up only for a view that has both halves of a
/// skybox, and nothing of a skybox is bound or drawn unless the lookup has
/// returned the compiled pipeline.
pub proof fn lemma_skybox_needs_both_halves<C, D>(inputs: PassInputs<C, D>, replies: Replies)
    ensures
        forall|i: int|
            0 <= i < pass_actions(inputs, replies).len() && #[trigger] pass_actions(
                inputs,
                replies,
            )[i] is LookupPipeline ==> inputs.skybox_pipeline is Some && inputs.skybox_bind_group
                is Some && pass_actions(inputs, replies)[i] == Action::<C, D>::LookupPipeline(
                inputs.skybox_pipeline->0,
            ),
        forall|i: int|
            0 <= i < pass_actions(inputs, replies).len() && ({
                ||| #[trigger] pass_actions(inputs, replies)[i] is SetPipeline
                ||| pass_actions(inputs, replies)[i] is SetBindGroup
                ||| pass_actions(inputs, replies)[i] is Draw
            }) ==> {
                &&& inputs.skybox_pipeline is Some
                &&& inputs.skybox_bind_group is Some
                &&& replies.pipeline is Some
                &&& pass_result(inputs, replies) is Ok
            },
{
    let actions = pass_actions(inputs, replies);
    assert forall|i: int| 0 <= i < actions.len() implies (#[trigger] actions[i] is LookupPipeline
        ==> inputs.skybox_pipeline is Some && inputs.skybox_bind_group is Some && actions[i]
        == Action::<C, D>::LookupPipeline(inputs.skybox_pipeline->0)) && (actions[i]
        is SetPipeline || actions[i] is SetBindGroup || actions[i] is Draw ==> {
        &&& inputs.skybox_pipeline is Some
        &&& inputs.skybox_bind_group is Some
        &&& replies.pipeline is Some
        &&& pass_result(inputs, replies) is Ok
    }) by {
        lemma_placed(inputs, replies, i);
    }
}

/// The place of an action in the fixed order of a pass: opening, viewport,
/// opaque phase, alpha-mask phase, skybox, ending, result.
pub open spec fn order_of<C, D>(action: Action<C, D>) -> int {
    match action {
        Action::BeginPass(_) => 0,
        Action::SetViewport(_) => 1,
        Action::BeginPhase(PhaseKind::Opaque) => 2,
        Action::DrawItem { phase: PhaseKind::Opaque, .. } => 2,
        Action::BeginPhase(PhaseKind::AlphaMask) => 3,
        Action::DrawItem { phase: PhaseKind::AlphaMask, .. } => 3,
        Action::LookupPipeline(_) => 4,
        Action::SetPipeline(_) => 4,
        Action::SetBindGroup { .. } => 4,
        Action::Draw(_) => 4,
        Action::EndPass => 5,
        Action::Finish(_) => 6,
    }
}

/// The actions of a pass come in the fixed order: the attachments are set
/// up before anything is drawn, opaque draws precede alpha-mask draws, both
/// precede the skybox, and the pass is ended after all of them.
pub proof fn lemma_actions_in_order<C, D>(inputs: PassInputs<C, D>, replies: Replies)
    ensures
        forall|i: int, j: int|
            0 <= i < j < pass_actions(inputs, replies).len() ==> order_of(
                #[trigger] pass_actions(inputs, replies)[i],
            ) <= order_of(#[trigger] pass_actions(inputs, replies)[j]),
{
    let actions = pass_actions(inputs, replies);
    lemma_part_lengths(inputs, replies);
    assert forall|i: int, j: int| 0 <= i < j < actions.len() implies order_of(
        #[trigger] actions[i],
    ) <= order_of(#[trigger] actions[j]) by {
        lemma_placed(inputs, replies, i);
        lemma_placed(inputs, replies, j);
    }
}

/// The items of a phase are drawn in stored order, each at most once, after
/// the phase is begun.
pub proof fn lemma_items_in_stored_order<C, D>(inputs: PassInputs<C, D>, replies: Replies)
    ensures
        forall|i: int, j: int|
            0 <= i < j < pass_actions(inputs, replies).len() ==> match (
                #[trigger] pass_actions(inputs, replies)[i],
                #[trigger] pass_actions(inputs, replies)[j],
            ) {
                (
                    Action::DrawItem { phase: first_phase, index: first },
                    Action::DrawItem { phase: second_phase, index: second },
                ) => first_phase == second_phase ==> first < second,
                (Action::DrawItem { phase, .. }, Action::BeginPhase(kind)) => phase != kind,
                _ => true,
            },
{
    let actions = pass_actions(inputs, replies);
    lemma_part_lengths(inputs, replies);
    assert forall|i: int, j: int| 0 <= i < j < actions.len() implies match (
        #[trigger] actions[i],
        #[trigger] actions[j],
    ) {
        (
            Action::DrawItem { phase: first_phase, index: first },
            Action::DrawItem { phase: second_phase, index: second },
        ) => first_phase == second_phase ==> first < second,
        (Action::DrawItem { phase, .. }, Action::BeginPhase(kind)) => phase != kind,
        _ => true,
    } by {
        lemma_placed(inputs, replies, i);
        lemma_placed(inputs, replies, j);
    }
}

/// Every item of a phase that is reached is drawn, up to and including the
/// first whose draw fails; no item behind a failing one is drawn, and no
/// item of a phase that is not reached.
pub proof fn lemma_items_drawn<C, D>(
    inputs: PassInputs<C, D>,
    replies: Replies,
    kind: PhaseKind,
    index: usize,
)
    ensures
        (exists|i: int|
            0 <= i < pass_actions(inputs, replies).len() && #[trigger] pass_actions(
                inputs,
                replies,
            )[i] == Action::<C, D>::DrawItem { phase: kind, index }) <==> {
            &&& kind == PhaseKind::AlphaMask ==> !phase_fails(inputs, replies, PhaseKind::Opaque)
            &&& index < items_attempted(inputs, replies, kind)
        },
{
    let actions = pass_actions(inputs, replies);
    let draw = Action::<C, D>::DrawItem { phase: kind, index };
    lemma_part_lengths(inputs, replies);
    assert forall|i: int| 0 <= i < actions.len() && #[trigger] actions[i] == draw implies {
        &&& kind == PhaseKind::AlphaMask ==> !phase_fails(inputs, replies, PhaseKind::Opaque)
        &&& index < items_attempted(inputs, replies, kind)
    } by {
        lemma_placed(inputs, replies, i);
    }
    if (kind == PhaseKind::AlphaMask ==> !phase_fails(inputs, replies, PhaseKind::Opaque))
        && index < items_attempted(inputs, replies, kind) {
        lemma_phase_in_pass(inputs, replies, kind, index + 1);
        assert(actions[issued_before_phase(inputs, kind) + index + 1] == draw);
    }
}

/// A failing draw ends the pass at once: the pass is ended right after the
/// failing item, and the failure of that item is the result. Where no draw
/// fails, the pass succeeds.
pub proof fn lemma_failed_draw_ends_pass<C, D>(inputs: PassInputs<C, D>, replies: Replies)
    ensures
        pass_actions(inputs, replies).len() >= 4,
        (pass_result(inputs, replies) matches Err(RunError::DrawFailed { phase, index }) ==> {
            &&& replies.failure(phase) == Some(index)
            &&& pass_actions(inputs, replies)[pass_actions(inputs, replies).len() - 3] == (
            Action::<C, D>::DrawItem { phase, index })
        }),
        (pass_result(inputs, replies) is Ok) <==> !phase_fails(inputs, replies, PhaseKind::Opaque)
            && !phase_fails(inputs, replies, PhaseKind::AlphaMask),
{
    lemma_part_lengths(inputs, replies);
    lemma_closing_position(inputs, replies);
    match pass_result(inputs, replies) {
        Err(RunError::DrawFailed { phase, index }) => {
            lemma_phase_in_pass(inputs, replies, phase, index + 1);
        },
        Ok(_) => {},
    }
}

} // verus!
