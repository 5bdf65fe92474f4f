//! Persisted application state (the queue, the scheduler and resume data),
//! and the values that the database queries are given.

pub mod queries;
pub mod state;

pub use state::{AppState, QueueState, ResumeData, SchedulerState, StateStore};
