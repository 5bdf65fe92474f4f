//! Scheduling: the policy that decides whether downloads may run (the active
//! window, a cron expression checked against the time), and how many queued
//! jobs to start.

pub mod cron;
pub mod policy;

pub use policy::Policy;

use vstd::prelude::*;
use crate::config::Config;
use policy::{made_from, spec_is_active_window, PolicyError};
use cron::{window_contains, CalendarTime};

verus! {

/// The scheduler's decisions. The binary drives it once a second: it updates
/// the window for the local time, asks how many queued jobs to start, and
/// starts them.
#[derive(Debug, Clone)]
pub struct Scheduler {
    policy: Policy,
    max_concurrent: usize,
}

/// How many queued jobs a tick starts, given whether the policy's window is
/// open, how many jobs are active and the concurrency limit.
pub open spec fn spec_slots(window_open: bool, active: nat, max: nat) -> nat {
    if !window_open || active >= max {
        0
    } else {
        (max - active) as nat
    }
}

impl Scheduler {
    /// The scheduling policy in force.
    pub closed spec fn spec_policy(&self) -> Policy {
        self.policy
    }

    /// The limit on concurrent downloads.
    pub closed spec fn spec_max_concurrent(&self) -> usize {
        self.max_concurrent
    }

    /// Create a new scheduler.
    pub fn new(config: &Config) -> (r: Result<Scheduler, PolicyError>)
        ensures
            r matches Ok(s) && made_from(s.spec_policy()@, config) && s.spec_max_concurrent()
                == config.general.max_concurrent,
    {
        let policy = match Policy::from_config(config) {
            Ok(p) => p,
            Err(e) => return Err(e),
        };
        Ok(Scheduler { policy, max_concurrent: config.general.max_concurrent })
    }

    /// The scheduling policy in force.
    pub fn policy(&self) -> (p: &Policy)
        ensures
            p@ == self.spec_policy()@,
    {
        &self.policy
    }

    /// The limit on concurrent downloads.
    pub fn max_concurrent(&self) -> (m: usize)
        ensures
            m == self.spec_max_concurrent(),
    {
        self.max_concurrent
    }

    /// Update scheduler policy.
    pub fn update_policy(&mut self, policy: Policy)
        ensures
            final(self).spec_policy()@ == policy@,
            final(self).spec_max_concurrent() == old(self).spec_max_concurrent(),
    {
        self.policy = policy;
    }

    /// Set maximum concurrent downloads.
    pub fn set_max_concurrent(&mut self, max: usize)
        ensures
            final(self).spec_max_concurrent() == max,
            final(self).spec_policy()@ == old(self).spec_policy()@,
    {
        self.max_concurrent = max;
    }

    /// Update the policy's window for the time `now`.
    pub fn update_window(&mut self, now: &CalendarTime)
        ensures
            final(self).spec_max_concurrent() == old(self).spec_max_concurrent(),
            final(self).spec_policy()@.enabled == old(self).spec_policy()@.enabled,
            final(self).spec_policy()@.active_window == old(self).spec_policy()@.active_window,
            final(self).spec_policy()@.bandwidth_limit == old(self).spec_policy()@.bandwidth_limit,
            old(self).spec_policy()@.active_window matches Some(w) ==> final(self).spec_policy()@.in_window
                == window_contains(w, *now),
            old(self).spec_policy()@.active_window is None ==> final(self).spec_policy()@.in_window
                == old(self).spec_policy()@.in_window,
    {
        self.policy.update_window(now);
    }

    /// One tick of the scheduler loop: how many queued jobs to start now that
    /// `active_count` jobs are active. None outside the active window or at
    /// the limit; otherwise as many as the limit leaves room for.
    pub fn slots_to_fill(&self, active_count: usize) -> (n: usize)
        ensures
            n == spec_slots(spec_is_active_window(self.spec_policy()@), active_count as nat,
                self.spec_max_concurrent() as nat),
    {
        if !self.policy.is_active_window() {
            return 0;
        }
        if active_count >= self.max_concurrent {
            return 0;
        }
        self.max_concurrent - active_count
    }
}

/// Starting the jobs that a tick grants never takes the number of active jobs
/// beyond the limit, and while the window is open and the limit is not
/// reached, the tick grants at least one.
pub proof fn lemma_slots_respect_limit(window_open: bool, active: nat, max: nat)
    ensures
        spec_slots(window_open, active, max) > 0 ==> active + spec_slots(window_open, active, max)
            == max,
        active >= max ==> spec_slots(window_open, active, max) == 0,
        window_open && active < max ==> spec_slots(window_open, active, max) > 0,
        !window_open ==> spec_slots(window_open, active, max) == 0,
{
}

} // verus!
