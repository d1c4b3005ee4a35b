//! `miseo install`.

use vstd::prelude::*;

use crate::spec::runtime::RuntimeSpec;
use crate::spec::tool::ToolSpec;

verus! {

#[derive(Debug)]
pub struct Install {
    /// Tool spec: <backend>:<name>[@version].
    pub tool_spec: ToolSpec,
    /// Runtime selector(s): <runtime@selector> (repeatable).
    pub uses: Vec<RuntimeSpec>,
    /// Reinstall the current variant even when it is already installed.
    pub force: bool,
}

} // verus!
