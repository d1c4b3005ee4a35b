//! `miseo uninstall`.

use vstd::prelude::*;

use crate::spec::tool::ToolId;

verus! {

#[derive(Debug)]
pub struct Uninstall {
    /// Installed tool id: <backend>:<name>.
    pub tool_id: ToolId,
    /// Also remove an unmanaged install left in place.
    pub force: bool,
}

} // verus!
