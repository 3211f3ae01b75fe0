//! The skybox: a background drawn as one triangle that covers the screen.
//!
//! A view has a skybox only where both its pipeline handle and its bind
//! group are present. One half without the other is no error: the view then
//! has no skybox.

use vstd::prelude::*;

verus! {

/// Handle under which a pipeline was queued for compilation.
#[derive(Clone, Copy, Debug, PartialEq, Eq)]
pub struct PipelineId(pub u64);

/// Handle of a compiled pipeline, as the pipeline cache hands it out once
/// compilation has finished.
#[derive(Clone, Copy, Debug, PartialEq, Eq)]
pub struct Pipeline(pub u64);

/// Handle of a bind group.
#[derive(Clone, Copy, Debug, PartialEq, Eq)]
pub struct BindGroup(pub u64);

/// A draw without an index buffer.
#[derive(Clone, Copy, Debug, PartialEq, Eq)]
pub struct DrawCall {
    pub first_vertex: u32,
    pub vertex_count: u32,
    pub first_instance: u32,
    pub instance_count: u32,
}

/// What drawing a view's skybox takes.
#[derive(Clone, Copy, Debug, PartialEq, Eq)]
pub struct SkyboxResources {
    pub pipeline: PipelineId,
    pub bind_group: BindGroup,
    /// Dynamic offset of the view's uniforms, at which the bind group is bound.
    pub view_uniform_offset: u32,
}

/// The index at which the skybox's bind group is bound.
pub const SKYBOX_BIND_GROUP_INDEX: u32 = 0;

/// The draw that covers the screen: three vertices, one instance, both
/// counted from zero.
pub open spec fn fullscreen_triangle_spec() -> DrawCall {
    DrawCall { first_vertex: 0, vertex_count: 3, first_instance: 0, instance_count: 1 }
}

/// The skybox of a view with the given halves.
pub open spec fn skybox_of(
    pipeline: Option<PipelineId>,
    bind_group: Option<BindGroup>,
    view_uniform_offset: u32,
) -> Option<SkyboxResources> {
    match (pipeline, bind_group) {
        (Some(pipeline), Some(bind_group)) => Some(
            SkyboxResources { pipeline, bind_group, view_uniform_offset },
        ),
        _ => None,
    }
}

/// The draw that covers the screen.
#[verifier::when_used_as_spec(fullscreen_triangle_spec)]
pub fn fullscreen_triangle() -> (call: DrawCall)
    ensures
        call == fullscreen_triangle_spec(),
{
    DrawCall { first_vertex: 0, vertex_count: 3, first_instance: 0, instance_count: 1 }
}

/// Joins the two halves of a view's skybox. The result is present exactly
/// where both halves are.
pub fn skybox_resources(
    pipeline: Option<PipelineId>,
    bind_group: Option<BindGroup>,
    view_uniform_offset: u32,
) -> (resources: Option<SkyboxResources>)
    ensures
        resources == skybox_of(pipeline, bind_group, view_uniform_offset),
        resources is Some <==> pipeline is Some && bind_group is Some,
{
    match (pipeline, bind_group) {
        (Some(pipeline), Some(bind_group)) => Some(
            SkyboxResources { pipeline, bind_group, view_uniform_offset },
        ),
        _ => None,
    }
}

} // verus!
