//! Assembly of the configuration of the one render pass that a view opens.

use vstd::prelude::*;
use crate::load_ops::{LoadOp, Operations, StoreOp};

verus! {

/// Handle of a writable colour surface.
#[derive(Clone, Copy, Debug, PartialEq, Eq)]
pub struct ColorTarget(pub u64);

/// Handle of a writable depth surface.
#[derive(Clone, Copy, Debug, PartialEq, Eq)]
pub struct DepthTarget(pub u64);

/// Handle of a set of GPU queries.
#[derive(Clone, Copy, Debug, PartialEq, Eq)]
pub struct QuerySet(pub u64);

/// The two surfaces a view renders into. A render pass holds both
/// exclusively from the moment it opens until it ends.
#[derive(Clone, Copy, Debug, PartialEq, Eq)]
pub struct Attachments {
    pub color_target: ColorTarget,
    pub depth_target: DepthTarget,
}

/// A sub-rectangle of the target to which rasterisation is restricted.
#[derive(Clone, Copy, Debug, PartialEq, Eq)]
pub struct Viewport {
    pub x: u32,
    pub y: u32,
    pub width: u32,
    pub height: u32,
}

/// The colour attachment of a render pass.
#[derive(Debug, PartialEq, Eq)]
pub struct ColorAttachment<C> {
    pub target: ColorTarget,
    pub ops: Operations<C>,
}

impl<C: Copy> Clone for ColorAttachment<C> {
    fn clone(&self) -> (cloned: Self)
        ensures
            cloned == *self,
    {
        *self
    }
}

impl<C: Copy> Copy for ColorAttachment<C> {
}

/// The depth and stencil attachment of a render pass. Either aspect is left
/// untouched where its operations are absent.
#[derive(Debug, PartialEq, Eq)]
pub struct DepthStencilAttachment<D> {
    pub target: DepthTarget,
    pub depth_ops: Option<Operations<D>>,
    pub stencil_ops: Option<Operations<u32>>,
}

impl<D: Copy> Clone for DepthStencilAttachment<D> {
    fn clone(&self) -> (cloned: Self)
        ensures
            cloned == *self,
    {
        *self
    }
}

impl<D: Copy> Copy for DepthStencilAttachment<D> {
}

/// Everything needed to open a render pass.
#[derive(Debug, PartialEq, Eq)]
pub struct RenderPassConfig<C, D> {
    pub color_attachment: ColorAttachment<C>,
    pub depth_stencil_attachment: DepthStencilAttachment<D>,
    /// Applied, where present, before any draw call of the pass.
    pub viewport: Option<Viewport>,
    pub timestamp_writes: Option<QuerySet>,
    pub occlusion_query_set: Option<QuerySet>,
}

impl<C: Copy, D: Copy> Clone for RenderPassConfig<C, D> {
    fn clone(&self) -> (cloned: Self)
        ensures
            cloned == *self,
    {
        *self
    }
}

impl<C: Copy, D: Copy> Copy for RenderPassConfig<C, D> {
}

/// The configuration of the pass for the given load operations. Colour and
/// depth are always stored, since later passes read them; stencil is never
/// touched; no query instrumentation is attached.
pub open spec fn render_pass_config<C, D>(
    color_load: LoadOp<C>,
    depth_load: LoadOp<D>,
    attachments: Attachments,
    viewport: Option<Viewport>,
) -> RenderPassConfig<C, D> {
    RenderPassConfig {
        color_attachment: ColorAttachment {
            target: attachments.color_target,
            ops: Operations { load: color_load, store: StoreOp::Store },
        },
        depth_stencil_attachment: DepthStencilAttachment {
            target: attachments.depth_target,
            depth_ops: Some(Operations { load: depth_load, store: StoreOp::Store }),
            stencil_ops: None,
        },
        viewport,
        timestamp_writes: None,
        occlusion_query_set: None,
    }
}

/// Builds the configuration of the pass from resolved load operations, the
/// view's attachments and its optional viewport.
pub fn build_render_pass<C, D>(
    color_load: LoadOp<C>,
    depth_load: LoadOp<D>,
    attachments: Attachments,
    viewport: Option<Viewport>,
) -> (config: RenderPassConfig<C, D>)
    ensures
        config == render_pass_config(color_load, depth_load, attachments, viewport),
{
    RenderPassConfig {
        color_attachment: ColorAttachment {
            target: attachments.color_target,
            ops: Operations { load: color_load, store: StoreOp::Store },
        },
        depth_stencil_attachment: DepthStencilAttachment {
            target: attachments.depth_target,
            depth_ops: Some(Operations { load: depth_load, store: StoreOp::Store }),
            stencil_ops: None,
        },
        viewport,
        timestamp_writes: None,
        occlusion_query_set: None,
    }
}

} // verus!
