//! Download jobs: their record, their status and the rules by which the status
//! may change.

pub mod job;
pub mod state_machine;
pub mod plan;

pub use job::{Job, JobStatus};
pub use state_machine::StateMachine;
