use opaque_pass::skybox::{
    fullscreen_triangle, skybox_resources, BindGroup, DrawCall, PipelineId, SkyboxResources,
    SKYBOX_BIND_GROUP_INDEX,
};

#[test]
fn skybox_needs_pipeline_and_bind_group() {
    assert_eq!(
        skybox_resources(Some(PipelineId(3)), Some(BindGroup(4)), 256),
        Some(SkyboxResources { pipeline: PipelineId(3), bind_group: BindGroup(4), view_uniform_offset: 256 })
    );
}

#[test]
fn skybox_without_pipeline_is_absent() {
    assert_eq!(skybox_resources(None, Some(BindGroup(4)), 256), None);
}

#[test]
fn skybox_without_bind_group_is_absent() {
    assert_eq!(skybox_resources(Some(PipelineId(3)), None, 256), None);
}

#[test]
fn skybox_without_either_half_is_absent() {
    assert_eq!(skybox_resources(None, None, 0), None);
}

#[test]
fn fullscreen_triangle_has_three_vertices_and_one_instance() {
    assert_eq!(
        fullscreen_triangle(),
        DrawCall { first_vertex: 0, vertex_count: 3, first_instance: 0, instance_count: 1 }
    );
}

#[test]
fn skybox_bind_group_goes_to_the_first_slot() {
    assert_eq!(SKYBOX_BIND_GROUP_INDEX, 0);
}
