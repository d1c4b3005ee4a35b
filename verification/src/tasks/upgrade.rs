//! Results of upgrading a tool.

use vstd::prelude::*;

use crate::spec::tool::ToolId;

verus! {

/// Successful upgrade details for UI rendering.
#[derive(Debug, Clone)]
pub struct Success {
    /// Stable tool identity (`<backend>:<name>`).
    pub tool_id: ToolId,
    /// Resolved package version.
    pub package_version: String,
    /// Resolved runtime pins rendered as labels (`node@24.13.1`, ...).
    pub runtimes: Vec<String>,
    /// Exported command names now linked in `~/.miseo/.bin`.
    pub commands: Vec<String>,
    /// End-to-end task duration in milliseconds.
    pub elapsed_ms: u128,
    /// Variant keys removed after the upgrade.
    pub removed_variants: Vec<String>,
}

/// Already-current upgrade details.
#[derive(Debug, Clone)]
pub struct AlreadyCurrent {
    /// Stable tool identity (`<backend>:<name>`).
    pub tool_id: ToolId,
    /// Resolved package version.
    pub package_version: String,
    /// Resolved runtime pins rendered as labels (`node@24.13.1`, ...).
    pub runtimes: Vec<String>,
}

pub type Outcome = Result<Success, AlreadyCurrent>;

} // verus!
