//! Host `mise` integration: the arguments it is run with and the reading of what it answers.

pub mod cli;

pub use cli::Cli;
