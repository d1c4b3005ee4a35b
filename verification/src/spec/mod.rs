//! Parsed domain spec types used across CLI, tasks, and mise integration.

pub mod backend;
pub mod pins;
pub mod runtime;
pub mod tool;

pub use backend::Backend;
pub use pins::RuntimePins;
pub use runtime::{Runtime, RuntimeSpec};
pub use tool::{ToolId, ToolLayout, ToolSpec, VariantLayout};
