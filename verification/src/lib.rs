//! Decision logic of the main opaque pass of a 3D renderer, for one camera view.
//!
//! The pass resolves how its colour and depth attachments are initialised,
//! assembles the configuration of its single render pass, replays the opaque
//! and alpha-mask draw phases in order, and composites an optional skybox.
//! Everything the pass decides is computed here from plain values; recording
//! on a GPU is left to the caller, which performs the actions the pass issues
//! and reports back what happened.

pub mod load_ops;
pub mod render_pass;
pub mod skybox;
pub mod node;
pub mod trace;
pub mod laws;
