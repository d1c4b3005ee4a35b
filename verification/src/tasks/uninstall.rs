//! Uninstalling a tool.

use vstd::prelude::*;

use crate::error::Error;
use crate::spec::tool::ToolId;

verus! {

/// Successful uninstall details for UI rendering.
#[derive(Debug, Clone)]
pub struct Outcome {
    /// Stable tool identity (`<backend>:<name>`).
    pub tool_id: ToolId,
    /// Public command links removed from `~/.miseo/.bin`.
    pub removed_commands: Vec<String>,
}

/// The outcome of uninstalling `tool_id`, given what the workspace answered:
/// the public command links it removed, or why it could not.
pub fn execute(tool_id: ToolId, removed: Result<Vec<String>, Error>) -> (r: Result<Outcome, Error>)
    ensures
        match removed {
            Ok(commands) => r matches Ok(outcome) && outcome.tool_id == tool_id
                && outcome.removed_commands == commands,
            Err(e) => r matches Err(f) && f == e,
        },
{
    let removed_commands = removed?;
    Ok(Outcome { tool_id, removed_commands })
}

} // verus!
