//! rustaria: the verified core of a download manager driven by aria2.
//!
//! The library holds the job lifecycle, the aria2 bridge's decisions, the
//! configuration schema, scheduling and post-processing rules. Process,
//! network, file and terminal plumbing live in the accompanying binary.

pub mod text;
pub mod numeric;
pub mod paths;
pub mod regexes;
pub mod queue;
pub mod aria2;
pub mod config;
pub mod scheduler;
pub mod postprocess;
pub mod integration;
pub mod db;
pub mod cli;
pub mod ui;
