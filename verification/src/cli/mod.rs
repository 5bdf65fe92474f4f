//! Command-line interface: the arguments, and the decisions and formatting of
//! the commands.

pub mod args;
pub mod commands;

pub use args::Args;
