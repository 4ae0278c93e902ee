//! A full-screen "video glitch" post-processing effect for a frame-graph
//! driven renderer.
//!
//! The crate models the effect's logic as plain data with proved contracts:
//! the settings record that the application edits each frame, its byte
//! layout in uniform memory, the bind-group and pipeline descriptors, the
//! keyed pipeline cache, the per-view frame node that either draws a single
//! full-screen triangle or silently skips, and the static ordering edges
//! that place the node in the host's render graphs.

pub mod extract;
pub mod graph;
pub mod node;
pub mod pipeline;
pub mod settings;
pub mod uniform;
