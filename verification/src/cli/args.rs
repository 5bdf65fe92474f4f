//! CLI argument definitions.

use vstd::prelude::*;

verus! {

/// rustaria - A Rust download manager powered by aria2.
#[derive(Debug)]
pub struct Args {
    /// Run in daemon mode (headless, no TUI).
    pub daemon: bool,
    /// Path to configuration file.
    pub config: Option<String>,
    /// Increase verbosity (-v, -vv, -vvv).
    pub verbose: u8,
    /// Subcommand to run.
    pub command: Option<Command>,
}

/// Available subcommands.
#[derive(Debug)]
pub enum Command {
    /// Add a download.
    Add(AddArgs),
    /// Pause a download.
    Pause(PauseArgs),
    /// Resume a download.
    Resume(ResumeArgs),
    /// Remove a download.
    Remove(RemoveArgs),
    /// List downloads.
    List(ListArgs),
    /// Show download status.
    Status(StatusArgs),
    /// Show or edit configuration.
    Config(ConfigArgs),
}

/// Arguments for the `add` command.
#[derive(Debug)]
pub struct AddArgs {
    /// URL(s) to download.
    pub urls: Vec<String>,
    /// Output filename.
    pub output: Option<String>,
    /// Download directory.
    pub dir: Option<String>,
    /// HTTP headers (can be repeated).
    pub header: Vec<String>,
    /// Referer URL.
    pub referer: Option<String>,
    /// User agent string.
    pub user_agent: Option<String>,
    /// Category for the download.
    pub category: Option<String>,
    /// Tags for the download.
    pub tags: Vec<String>,
    /// Start download immediately (don't queue).
    pub start: bool,
}

/// Arguments for the `pause` command.
#[derive(Debug)]
pub struct PauseArgs {
    /// Job ID(s) to pause (or "all").
    pub ids: Vec<String>,
}

/// Arguments for the `resume` command.
#[derive(Debug)]
pub struct ResumeArgs {
    /// Job ID(s) to resume (or "all").
    pub ids: Vec<String>,
}

/// Arguments for the `remove` command.
#[derive(Debug)]
pub struct RemoveArgs {
    /// Job ID(s) to remove.
    pub ids: Vec<String>,
    /// Also delete downloaded files.
    pub delete_files: bool,
    /// Force removal without confirmation.
    pub force: bool,
}

/// Arguments for the `list` command.
#[derive(Debug)]
pub struct ListArgs {
    /// Filter by status.
    pub status: Option<String>,
    /// Filter by category.
    pub category: Option<String>,
    /// Output format (table, json, csv).
    pub format: String,
    /// Maximum number of results.
    pub limit: Option<usize>,
}

/// Arguments for the `status` command.
#[derive(Debug)]
pub struct StatusArgs {
    /// Job ID to show status for.
    pub id: String,
    /// Output format (table, json).
    pub format: String,
}

/// Arguments for the `config` command.
#[derive(Debug)]
pub struct ConfigArgs {
    /// Show current configuration.
    pub show: bool,
    /// Open configuration in editor.
    pub edit: bool,
    /// Set a configuration value (key=value).
    pub set: Option<String>,
    /// Get a configuration value.
    pub get: Option<String>,
}

} // verus!
