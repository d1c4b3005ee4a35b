//! Stable global CLI tools on top of mise: the verified core.

pub mod text;
pub mod error;
pub mod path;
pub mod spec;
pub mod mise;
pub mod tasks;
pub mod cli;
