//! CLI entrypoint types plus command/output modules.

use vstd::prelude::*;

pub mod commands;
pub mod output;

pub use commands::Commands;

verus! {

/// Stable global CLI tools on top of mise: the parsed command line.
#[derive(Debug)]
pub struct Cli {
    /// Increase output verbosity (`-v`, `-vv`, ...).
    pub verbose: u8,
    pub command: Commands,
}

} // verus!
