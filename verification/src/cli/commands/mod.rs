//! CLI subcommands.

use vstd::prelude::*;

pub mod install;
pub mod uninstall;
pub mod upgrade;

verus! {

#[derive(Debug)]
pub enum Commands {
    /// Install a tool into ~/.miseo and export its command(s) into ~/.miseo/.bin.
    Install(install::Install),
    /// Upgrade an installed tool to a newer resolved package version.
    Upgrade(upgrade::Upgrade),
    /// Uninstall a tool from ~/.miseo and remove exported command(s) from ~/.miseo/.bin.
    Uninstall(uninstall::Uninstall),
}

} // verus!
