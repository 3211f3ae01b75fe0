//! Resolution of the load operations of the colour and depth attachments.
//!
//! Passes that ran earlier in the frame may already have written depth, or
//! final colour. What they wrote must be loaded, never cleared, whatever the
//! camera asks for. Only where nothing was written does the camera decide.
//!
//! Clear values are carried through untouched: `C` is the caller's colour
//! type and `D` its depth value.

use vstd::prelude::*;

verus! {

/// How a render pass initialises an attachment when it opens.
#[derive(Debug, PartialEq, Eq)]
pub enum LoadOp<V> {
    /// Overwrite the attachment with the given value.
    Clear(V),
    /// Keep what the attachment already holds.
    Load,
}

impl<V: Copy> Clone for LoadOp<V> {
    fn clone(&self) -> (cloned: Self)
        ensures
            cloned == *self,
    {
        *self
    }
}

impl<V: Copy> Copy for LoadOp<V> {
}

/// Whether an attachment's contents outlive the render pass.
#[derive(Clone, Copy, Debug, PartialEq, Eq)]
pub enum StoreOp {
    /// Write the contents back, for the passes that follow.
    Store,
    /// Let the contents go.
    Discard,
}

/// The pair of operations a render pass applies to one attachment.
#[derive(Debug, PartialEq, Eq)]
pub struct Operations<V> {
    pub load: LoadOp<V>,
    pub store: StoreOp,
}

impl<V: Copy> Clone for Operations<V> {
    fn clone(&self) -> (cloned: Self)
        ensures
            cloned == *self,
    {
        *self
    }
}

impl<V: Copy> Copy for Operations<V> {
}

/// What a camera asks to be done with the colour target before drawing.
#[derive(Debug, PartialEq, Eq)]
pub enum ClearColorConfig<C> {
    /// Clear to the process-wide default clear colour.
    Default,
    /// Clear to this colour.
    Custom(C),
    /// Do not clear.
    Keep,
}

impl<C: Copy> Clone for ClearColorConfig<C> {
    fn clone(&self) -> (cloned: Self)
        ensures
            cloned == *self,
    {
        *self
    }
}

impl<C: Copy> Copy for ClearColorConfig<C> {
}

/// What a camera asks to be done with the depth target before drawing.
///
/// The clear value is the caller's: under a reversed depth convention it is
/// the numerically smallest depth, which stands for the far plane.
#[derive(Debug, PartialEq, Eq)]
pub enum DepthLoadPolicy<D> {
    /// Clear the depth target to this value.
    Clear(D),
    /// Keep the depth target as it is.
    Load,
}

impl<D: Copy> Clone for DepthLoadPolicy<D> {
    fn clone(&self) -> (cloned: Self)
        ensures
            cloned == *self,
    {
        *self
    }
}

impl<D: Copy> Copy for DepthLoadPolicy<D> {
}

/// The camera's settings that bear on the attachments.
#[derive(Debug, PartialEq, Eq)]
pub struct ViewConfig<C, D> {
    pub clear_color_config: ClearColorConfig<C>,
    pub depth_load_policy: DepthLoadPolicy<D>,
}

impl<C: Copy, D: Copy> Clone for ViewConfig<C, D> {
    fn clone(&self) -> (cloned: Self)
        ensures
            cloned == *self,
    {
        *self
    }
}

impl<C: Copy, D: Copy> Copy for ViewConfig<C, D> {
}

/// Which upstream passes have already run for this view in this frame.
/// Each of them has populated the depth target.
#[derive(Clone, Copy, Debug, PartialEq, Eq)]
pub struct PrepassFlags {
    pub has_depth: bool,
    pub has_normal: bool,
    pub has_motion_vector: bool,
    pub has_deferred: bool,
}

impl PrepassFlags {
    /// Some upstream pass has written the depth target.
    pub open spec fn depth_written(self) -> bool {
        self.has_depth || self.has_normal || self.has_motion_vector || self.has_deferred
    }

    /// Deferred lighting has written the colour target.
    pub open spec fn color_written(self) -> bool {
        self.has_deferred
    }

    /// The flags of a view for which no upstream pass ran.
    pub fn none() -> (flags: PrepassFlags)
        ensures
            flags == (PrepassFlags {
                has_depth: false,
                has_normal: false,
                has_motion_vector: false,
                has_deferred: false,
            }),
            !flags.depth_written(),
            !flags.color_written(),
    {
        PrepassFlags {
            has_depth: false,
            has_normal: false,
            has_motion_vector: false,
            has_deferred: false,
        }
    }

    /// Whether some upstream pass has written the depth target.
    pub fn any(&self) -> (b: bool)
        ensures
            b == self.depth_written(),
    {
        self.has_depth || self.has_normal || self.has_motion_vector || self.has_deferred
    }
}

/// The load operation that a camera's colour setting stands for on its own.
pub open spec fn color_config_op<C>(config: ClearColorConfig<C>, default_color: C) -> LoadOp<C> {
    match config {
        ClearColorConfig::Default => LoadOp::Clear(default_color),
        ClearColorConfig::Custom(color) => LoadOp::Clear(color),
        ClearColorConfig::Keep => LoadOp::Load,
    }
}

/// The load operation that a camera's depth setting stands for on its own.
pub open spec fn depth_policy_op<D>(policy: DepthLoadPolicy<D>) -> LoadOp<D> {
    match policy {
        DepthLoadPolicy::Clear(value) => LoadOp::Clear(value),
        DepthLoadPolicy::Load => LoadOp::Load,
    }
}

/// The load operation of the colour attachment.
pub open spec fn color_load_op<C>(
    config: ClearColorConfig<C>,
    flags: PrepassFlags,
    default_color: C,
) -> LoadOp<C> {
    if flags.color_written() {
        LoadOp::Load
    } else {
        color_config_op(config, default_color)
    }
}

/// The load operation of the depth attachment.
pub open spec fn depth_load_op<D>(policy: DepthLoadPolicy<D>, flags: PrepassFlags) -> LoadOp<D> {
    if flags.depth_written() {
        LoadOp::Load
    } else {
        depth_policy_op(policy)
    }
}

/// Resolves the load operation of the colour attachment: what deferred
/// lighting wrote is loaded; otherwise the camera's setting decides, with
/// `default_color` standing in where it names no colour of its own.
pub fn resolve_color_load<C>(
    config: ClearColorConfig<C>,
    flags: PrepassFlags,
    default_color: C,
) -> (op: LoadOp<C>)
    ensures
        op == color_load_op(config, flags, default_color),
        flags.has_deferred ==> op is Load,
{
    if flags.has_deferred {
        LoadOp::Load
    } else {
        match config {
            ClearColorConfig::Default => LoadOp::Clear(default_color),
            ClearColorConfig::Custom(color) => LoadOp::Clear(color),
            ClearColorConfig::Keep => LoadOp::Load,
        }
    }
}

/// Resolves the load operation of the depth attachment: where any upstream
/// pass ran, its depth is loaded; otherwise the camera's policy decides.
pub fn resolve_depth_load<D>(policy: DepthLoadPolicy<D>, flags: PrepassFlags) -> (op: LoadOp<D>)
    ensures
        op == depth_load_op(policy, flags),
        flags.depth_written() ==> op is Load,
{
    if flags.any() {
        LoadOp::Load
    } else {
        match policy {
            DepthLoadPolicy::Clear(value) => LoadOp::Clear(value),
            DepthLoadPolicy::Load => LoadOp::Load,
        }
    }
}

/// Resolves both load operations of a view. Neither depends on the other.
pub fn resolve_load_ops<C, D>(
    config: ViewConfig<C, D>,
    flags: PrepassFlags,
    default_color: C,
) -> (ops: (LoadOp<C>, LoadOp<D>))
    ensures
        ops.0 == color_load_op(config.clear_color_config, flags, default_color),
        ops.1 == depth_load_op(config.depth_load_policy, flags),
{
    let color = resolve_color_load(config.clear_color_config, flags, default_color);
    let depth = resolve_depth_load(config.depth_load_policy, flags);
    (color, depth)
}

} // verus!
