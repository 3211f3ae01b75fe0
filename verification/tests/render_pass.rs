use opaque_pass::load_ops::{LoadOp, Operations, StoreOp};
use opaque_pass::render_pass::{
    build_render_pass, Attachments, ColorAttachment, ColorTarget, DepthStencilAttachment,
    DepthTarget, RenderPassConfig, Viewport,
};

type Color = [f32; 4];

const RED: Color = [1.0, 0.0, 0.0, 1.0];

fn attachments() -> Attachments {
    Attachments { color_target: ColorTarget(11), depth_target: DepthTarget(22) }
}

#[test]
fn render_pass_holds_the_given_operations() {
    let viewport = Viewport { x: 8, y: 16, width: 320, height: 200 };
    let config = build_render_pass(LoadOp::Clear(RED), LoadOp::Clear(0.0f32), attachments(), Some(viewport));
    assert_eq!(
        config,
        RenderPassConfig {
            color_attachment: ColorAttachment {
                target: ColorTarget(11),
                ops: Operations { load: LoadOp::Clear(RED), store: StoreOp::Store },
            },
            depth_stencil_attachment: DepthStencilAttachment {
                target: DepthTarget(22),
                depth_ops: Some(Operations { load: LoadOp::Clear(0.0f32), store: StoreOp::Store }),
                stencil_ops: None,
            },
            viewport: Some(viewport),
            timestamp_writes: None,
            occlusion_query_set: None,
        }
    );
}

#[test]
fn render_pass_always_stores_color_and_depth() {
    let loads: [(LoadOp<Color>, LoadOp<f32>); 4] = [
        (LoadOp::Load, LoadOp::Load),
        (LoadOp::Load, LoadOp::Clear(0.0)),
        (LoadOp::Clear(RED), LoadOp::Load),
        (LoadOp::Clear(RED), LoadOp::Clear(1.0)),
    ];
    for (color, depth) in loads {
        let config = build_render_pass(color, depth, attachments(), None);
        assert_eq!(config.color_attachment.ops.load, color);
        assert_eq!(config.color_attachment.ops.store, StoreOp::Store);
        let depth_ops = config.depth_stencil_attachment.depth_ops.unwrap();
        assert_eq!(depth_ops.load, depth);
        assert_eq!(depth_ops.store, StoreOp::Store);
    }
}

#[test]
fn render_pass_never_touches_stencil_or_queries() {
    let config = build_render_pass(LoadOp::<Color>::Load, LoadOp::<f32>::Load, attachments(), None);
    assert_eq!(config.depth_stencil_attachment.stencil_ops, None);
    assert_eq!(config.timestamp_writes, None);
    assert_eq!(config.occlusion_query_set, None);
}

#[test]
fn render_pass_targets_the_views_attachments() {
    let config = build_render_pass(LoadOp::<Color>::Load, LoadOp::<f32>::Load, attachments(), None);
    assert_eq!(config.color_attachment.target, ColorTarget(11));
    assert_eq!(config.depth_stencil_attachment.target, DepthTarget(22));
}

#[test]
fn render_pass_without_viewport_covers_the_target() {
    let config = build_render_pass(LoadOp::<Color>::Load, LoadOp::<f32>::Load, attachments(), None);
    assert_eq!(config.viewport, None);
}

#[test]
fn render_pass_config_can_be_cloned() {
    let config = build_render_pass(LoadOp::Clear(RED), LoadOp::Clear(0.0f32), attachments(), None);
    assert_eq!(config.clone(), config);
}
