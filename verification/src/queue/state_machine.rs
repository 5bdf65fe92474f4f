//! Valid state transitions for download jobs.

use vstd::prelude::*;
use super::job::{Job, JobStatus};

verus! {

/// Whether a job may move from `from` to `to`.
pub open spec fn transition_allowed(from: JobStatus, to: JobStatus) -> bool {
    match (from, to) {
        (JobStatus::Queued, JobStatus::Active) => true,
        (JobStatus::Queued, JobStatus::Stopped) => true,
        (JobStatus::Active, JobStatus::Paused) => true,
        (JobStatus::Active, JobStatus::Complete) => true,
        (JobStatus::Active, JobStatus::Failed) => true,
        (JobStatus::Active, JobStatus::Stopped) => true,
        (JobStatus::Paused, JobStatus::Active) => true,
        (JobStatus::Paused, JobStatus::Stopped) => true,
        (JobStatus::Failed, JobStatus::Queued) => true,
        (JobStatus::Failed, JobStatus::Active) => true,
        (JobStatus::Stopped, JobStatus::Queued) => true,
        (JobStatus::Stopped, JobStatus::Active) => true,
        _ => false,
    }
}

/// The successors of a status, in the order in which they are listed.
pub open spec fn successors(from: JobStatus) -> Seq<JobStatus> {
    match from {
        JobStatus::Queued => seq![JobStatus::Active, JobStatus::Stopped],
        JobStatus::Active => seq![
            JobStatus::Paused,
            JobStatus::Complete,
            JobStatus::Failed,
            JobStatus::Stopped,
        ],
        JobStatus::Paused => seq![JobStatus::Active, JobStatus::Stopped],
        JobStatus::Complete => seq![],
        JobStatus::Failed => seq![JobStatus::Queued, JobStatus::Active],
        JobStatus::Stopped => seq![JobStatus::Queued, JobStatus::Active],
    }
}

/// State machine for job status transitions.
pub struct StateMachine;

impl StateMachine {
    /// Check if a state transition is valid.
    pub fn can_transition(from: &JobStatus, to: &JobStatus) -> (r: bool)
        ensures
            r == transition_allowed(*from, *to),
    {
        match (from, to) {
            (JobStatus::Queued, JobStatus::Active) | (JobStatus::Queued, JobStatus::Stopped)
            | (JobStatus::Active, JobStatus::Paused) | (JobStatus::Active, JobStatus::Complete)
            | (JobStatus::Active, JobStatus::Failed) | (JobStatus::Active, JobStatus::Stopped)
            | (JobStatus::Paused, JobStatus::Active) | (JobStatus::Paused, JobStatus::Stopped)
            | (JobStatus::Failed, JobStatus::Queued) | (JobStatus::Failed, JobStatus::Active)
            | (JobStatus::Stopped, JobStatus::Queued) | (JobStatus::Stopped, JobStatus::Active) => true,
            _ => false,
        }
    }

    /// Get all valid next states from a given state.
    pub fn valid_transitions(from: &JobStatus) -> (v: Vec<JobStatus>)
        ensures
            v@ == successors(*from),
    {
        match from {
            JobStatus::Queued => vec![JobStatus::Active, JobStatus::Stopped],
            JobStatus::Active => vec![
                JobStatus::Paused,
                JobStatus::Complete,
                JobStatus::Failed,
                JobStatus::Stopped,
            ],
            JobStatus::Paused => vec![JobStatus::Active, JobStatus::Stopped],
            JobStatus::Complete => vec![],
            JobStatus::Failed => vec![JobStatus::Queued, JobStatus::Active],
            JobStatus::Stopped => vec![JobStatus::Queued, JobStatus::Active],
        }
    }

    /// Check if a state is a terminal state.
    pub fn is_terminal(status: &JobStatus) -> (r: bool)
        ensures
            r == (*status == JobStatus::Complete),
    {
        match status {
            JobStatus::Complete => true,
            _ => false,
        }
    }

    /// Check if a state can be retried.
    pub fn can_retry(status: &JobStatus) -> (r: bool)
        ensures
            r == (*status == JobStatus::Failed || *status == JobStatus::Stopped),
    {
        match status {
            JobStatus::Failed | JobStatus::Stopped => true,
            _ => false,
        }
    }
}

/// The listed successors of a status are exactly the statuses it may move to,
/// each listed once.
pub proof fn lemma_successors_are_the_allowed_transitions(from: JobStatus, to: JobStatus)
    ensures
        successors(from).contains(to) <==> transition_allowed(from, to),
        successors(from).no_duplicates(),
{
    let s = successors(from);
    if transition_allowed(from, to) {
        match (from, to) {
            (JobStatus::Active, JobStatus::Paused) => assert(s[0] == to),
            (JobStatus::Active, JobStatus::Complete) => assert(s[1] == to),
            (JobStatus::Active, JobStatus::Failed) => assert(s[2] == to),
            (JobStatus::Active, JobStatus::Stopped) => assert(s[3] == to),
            (JobStatus::Queued, JobStatus::Active) | (JobStatus::Paused, JobStatus::Active)
            | (JobStatus::Failed, JobStatus::Queued) | (JobStatus::Stopped, JobStatus::Queued) =>
                assert(s[0] == to),
            _ => assert(s[1] == to),
        }
    }
    assert(s.no_duplicates());
}

/// A status is terminal exactly when no transition leaves it.
pub proof fn lemma_terminal_iff_no_successor(s: JobStatus)
    ensures
        (s == JobStatus::Complete) <==> (forall|t: JobStatus| !transition_allowed(s, t)),
        (s == JobStatus::Complete) <==> successors(s).len() == 0,
{
    if s != JobStatus::Complete {
        assert(transition_allowed(s, successors(s)[0]));
    }
}

/// A status that may be retried may be queued again and may be started again.
pub proof fn lemma_retry_reenters_the_queue(s: JobStatus)
    requires
        s == JobStatus::Failed || s == JobStatus::Stopped,
    ensures
        transition_allowed(s, JobStatus::Queued),
        transition_allowed(s, JobStatus::Active),
{
}

/// A job that `can_start` may move to `Active`, and one that `can_pause` is
/// exactly one that may move to `Paused`.
pub proof fn lemma_job_predicates_agree_with_transitions(job: Job)
    ensures
        (job.status == JobStatus::Queued || job.status == JobStatus::Paused)
            ==> transition_allowed(job.status, JobStatus::Active),
        (job.status == JobStatus::Active) <==> transition_allowed(job.status, JobStatus::Paused),
{
}

/// Which statuses each status is reached from: a job is stopped while it is
/// waiting, running or paused; it runs after waiting, after a pause, or again
/// after failing or being stopped; only a running job pauses, completes or
/// fails; and a job is queued again only after failing or being stopped.
pub proof fn lemma_transitions_by_target(s: JobStatus)
    ensures
        transition_allowed(s, JobStatus::Stopped) <==> (s == JobStatus::Queued
            || s == JobStatus::Active || s == JobStatus::Paused),
        transition_allowed(s, JobStatus::Active) <==> (s == JobStatus::Queued
            || s == JobStatus::Paused || s == JobStatus::Failed || s == JobStatus::Stopped),
        transition_allowed(s, JobStatus::Paused) <==> s == JobStatus::Active,
        transition_allowed(s, JobStatus::Complete) <==> s == JobStatus::Active,
        transition_allowed(s, JobStatus::Failed) <==> s == JobStatus::Active,
        transition_allowed(s, JobStatus::Queued) <==> (s == JobStatus::Failed
            || s == JobStatus::Stopped),
{
}

/// A paused download can be resumed or stopped, and nothing else: its listed
/// successors hold `Active` and `Stopped`, and only these.
pub proof fn lemma_paused_successors(t: JobStatus)
    ensures
        successors(JobStatus::Paused).contains(t) <==> (t == JobStatus::Active
            || t == JobStatus::Stopped),
        successors(JobStatus::Paused).len() == 2,
{
    lemma_successors_are_the_allowed_transitions(JobStatus::Paused, t);
    lemma_transitions_by_target(JobStatus::Paused);
}

/// No status moves to itself.
pub proof fn lemma_no_self_transition(s: JobStatus)
    ensures
        !transition_allowed(s, s),
{
}

} // verus!
