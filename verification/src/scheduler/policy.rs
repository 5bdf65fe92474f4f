//! Scheduling policy definitions.

use vstd::prelude::*;
use crate::config::Config;
use crate::text::clone_opt;
use super::cron::{cron_matches, window_contains, CalendarTime};

verus! {

/// A policy could not be made from the configuration.
#[derive(Debug)]
pub enum PolicyError {
    /// The active window could not be understood.
    InvalidWindow,
}

/// What a policy holds.
pub struct PolicyView {
    pub enabled: bool,
    pub active_window: Option<Seq<char>>,
    pub bandwidth_limit: u64,
    pub in_window: bool,
}

/// The characters of an optional string.
pub open spec fn opt_view(o: Option<String>) -> Option<Seq<char>> {
    match o {
        Some(s) => Some(s@),
        None => None,
    }
}

/// Whether downloads may run under a policy.
pub open spec fn spec_is_active_window(p: PolicyView) -> bool {
    !p.enabled || p.active_window is None || p.in_window
}

/// Whether `p` is the policy that `from_config` makes from `config`.
pub open spec fn made_from(p: PolicyView, config: &Config) -> bool {
    &&& p.enabled == config.scheduler.enabled
    &&& p.active_window == opt_view(config.scheduler.active_window)
    &&& p.bandwidth_limit == config.scheduler.bandwidth_limit
    &&& p.in_window
}

/// Scheduling policy configuration.
#[derive(Debug, Clone)]
pub struct Policy {
    /// Whether scheduling is enabled.
    pub enabled: bool,
    /// Cron expression for active download window.
    pub active_window: Option<String>,
    /// Bandwidth limit in bytes/sec (0 = unlimited).
    pub bandwidth_limit: u64,
    /// Whether we're currently in an active window.
    in_window: bool,
}

impl View for Policy {
    type V = PolicyView;

    closed spec fn view(&self) -> PolicyView {
        PolicyView {
            enabled: self.enabled,
            active_window: opt_view(self.active_window),
            bandwidth_limit: self.bandwidth_limit,
            in_window: self.in_window,
        }
    }
}

impl Policy {
    /// Create a policy from configuration.
    pub fn from_config(config: &Config) -> (r: Result<Policy, PolicyError>)
        ensures
            r matches Ok(p) && made_from(p@, config),
    {
        Ok(Policy {
            enabled: config.scheduler.enabled,
            active_window: clone_opt(&config.scheduler.active_window),
            bandwidth_limit: config.scheduler.bandwidth_limit,
            in_window: true,
        })
    }

    /// Check if we're in an active download window.
    pub fn is_active_window(&self) -> (r: bool)
        ensures
            r == spec_is_active_window(self@),
    {
        if !self.enabled {
            return true;
        }
        if self.active_window.is_none() {
            return true;
        }
        self.in_window
    }

    /// Update the active window state for the time `now`: where a window is
    /// set, the policy is inside it exactly when the cron expression admits
    /// `now` (an expression that is not well formed admits no time).
    pub fn update_window(&mut self, now: &CalendarTime)
        ensures
            final(self)@.enabled == old(self)@.enabled,
            final(self)@.active_window == old(self)@.active_window,
            final(self)@.bandwidth_limit == old(self)@.bandwidth_limit,
            old(self)@.active_window matches Some(w) ==> final(self)@.in_window == window_contains(
                w,
                *now,
            ),
            old(self)@.active_window is None ==> final(self)@.in_window == old(self)@.in_window,
    {
        match &self.active_window {
            Some(cron) => {
                self.in_window = cron_matches(cron.as_str(), now);
            },
            None => {},
        }
    }

    /// Get the current bandwidth limit.
    pub fn get_bandwidth_limit(&self) -> (r: u64)
        ensures
            r == self@.bandwidth_limit,
    {
        self.bandwidth_limit
    }

    /// Set a temporary bandwidth limit.
    pub fn set_bandwidth_limit(&mut self, limit: u64)
        ensures
            final(self)@ == (PolicyView { bandwidth_limit: limit, ..old(self)@ }),
    {
        self.bandwidth_limit = limit;
    }
}

impl Default for Policy {
    fn default() -> (p: Policy)
        ensures
            p@ == (PolicyView {
                enabled: false,
                active_window: None,
                bandwidth_limit: 0,
                in_window: true,
            }),
    {
        Policy { enabled: false, active_window: None, bandwidth_limit: 0, in_window: true }
    }
}

/// After `update_window` at `now` (whose effect the requirements describe),
/// downloads may run exactly when scheduling is disabled, no window is set,
/// or the window contains `now`.
pub proof fn lemma_window_decides(before: PolicyView, after: PolicyView, now: CalendarTime)
    requires
        after.enabled == before.enabled,
        after.active_window == before.active_window,
        before.active_window matches Some(w) ==> after.in_window == window_contains(w, now),
    ensures
        spec_is_active_window(after) == (!before.enabled || match before.active_window {
            Some(w) => window_contains(w, now),
            None => true,
        }),
{
}

/// A policy made from any configuration lets downloads run.
pub proof fn lemma_fresh_policy_is_active(p: PolicyView, config: &Config)
    requires
        made_from(p, config),
    ensures
        spec_is_active_window(p),
{
}

} // verus!
