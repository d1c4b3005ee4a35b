//! Lifecycle tasks shared by CLI command handlers.

pub mod install;
pub mod uninstall;
pub mod upgrade;
