//! aria2c process supervisor: restart policy, restart accounting and backoff.

use vstd::prelude::*;
use vstd::arithmetic::div_mod::lemma_fundamental_div_mod_converse;
use crate::numeric::{lemma_two_pow_32, lemma_two_pow_monotone, two_pow};

verus! {

/// Nanoseconds in one second.
pub const NANOS_PER_SEC: u64 = 1_000_000_000;

/// A span of time, kept as whole seconds and the nanoseconds beyond them (as
/// `std::time::Duration` keeps it).
#[derive(Debug, Clone, Copy, PartialEq, Eq, Structural)]
pub struct Delay {
    secs: u64,
    nanos: u32,
}

impl View for Delay {
    type V = nat;

    /// The span in nanoseconds.
    closed spec fn view(&self) -> nat {
        (self.secs * NANOS_PER_SEC + self.nanos) as nat
    }
}

/// The largest number of nanoseconds that a `Delay` can hold.
pub open spec fn max_delay_nanos() -> nat {
    ((u64::MAX as nat) * (NANOS_PER_SEC as nat) + (NANOS_PER_SEC as nat) - 1) as nat
}

impl Delay {
    #[verifier::type_invariant]
    spec fn inv(self) -> bool {
        self.nanos < NANOS_PER_SEC
    }

    /// A delay of `secs` whole seconds.
    pub fn from_secs(secs: u64) -> (d: Delay)
        ensures
            d@ == secs * NANOS_PER_SEC,
    {
        Delay { secs, nanos: 0 }
    }

    /// A delay of `ms` milliseconds.
    pub fn from_millis(ms: u64) -> (d: Delay)
        ensures
            d@ == ms * 1_000_000,
    {
        let secs = ms / 1000;
        let rem = ms % 1000;
        let nanos = (rem * 1_000_000) as u32;
        proof {
            lemma_fundamental_div_mod_converse(ms as int, 1000, secs as int, rem as int);
            assert(secs * NANOS_PER_SEC + rem * 1_000_000 == ms * 1_000_000) by (nonlinear_arith)
                requires
                    ms == secs * 1000 + rem,
            ;
        }
        Delay { secs, nanos }
    }

    /// The whole seconds of the delay. (Every delay is at most
    /// `max_delay_nanos()`, as the second clause states.)
    pub fn as_secs(&self) -> (s: u64)
        ensures
            s == self@ / (NANOS_PER_SEC as nat),
            self@ <= max_delay_nanos(),
    {
        proof {
            use_type_invariant(self);
            lemma_fundamental_div_mod_converse(
                self@ as int,
                NANOS_PER_SEC as int,
                self.secs as int,
                self.nanos as int,
            );
        }
        self.secs
    }

    /// The nanoseconds beyond the whole seconds.
    pub fn subsec_nanos(&self) -> (n: u32)
        ensures
            n == self@ % (NANOS_PER_SEC as nat),
    {
        proof {
            use_type_invariant(self);
            lemma_fundamental_div_mod_converse(
                self@ as int,
                NANOS_PER_SEC as int,
                self.secs as int,
                self.nanos as int,
            );
        }
        self.nanos
    }

    /// The delay multiplied by `rhs`, or `None` where the product does not fit
    /// (as `Duration::checked_mul` computes it).
    pub fn checked_mul(self, rhs: u32) -> (r: Option<Delay>)
        ensures
            r is Some <==> self@ * rhs <= max_delay_nanos(),
            r matches Some(d) ==> d@ == self@ * rhs,
    {
        proof {
            use_type_invariant(&self);
            assert(self.nanos as u64 * rhs as u64 <= 1_000_000_000u64 * 0xffff_ffffu64)
                by (nonlinear_arith)
                requires
                    self.nanos < NANOS_PER_SEC,
                    rhs <= 0xffff_ffffu32,
            ;
        }
        let total_nanos: u64 = self.nanos as u64 * rhs as u64;
        let extra_secs = total_nanos / NANOS_PER_SEC;
        let nanos = (total_nanos % NANOS_PER_SEC) as u32;
        let ghost q = self.secs * rhs + extra_secs;
        proof {
            lemma_fundamental_div_mod_converse(
                total_nanos as int,
                NANOS_PER_SEC as int,
                extra_secs as int,
                nanos as int,
            );
            assert(self@ * rhs == q * NANOS_PER_SEC + nanos) by (nonlinear_arith)
                requires
                    self@ == self.secs * NANOS_PER_SEC + self.nanos,
                    total_nanos == self.nanos * rhs,
                    total_nanos == extra_secs * NANOS_PER_SEC + nanos,
                    q == self.secs * rhs + extra_secs,
            ;
            assert(self@ * rhs <= max_delay_nanos() <==> q <= u64::MAX) by (nonlinear_arith)
                requires
                    self@ * rhs == q * NANOS_PER_SEC + nanos,
                    0 <= nanos < NANOS_PER_SEC,
                    q >= 0,
            ;
        }
        match self.secs.checked_mul(rhs as u64) {
            Some(s) => match s.checked_add(extra_secs) {
                Some(secs) => Some(Delay { secs, nanos }),
                None => None,
            },
            None => {
                proof {
                    assert(q >= self.secs * rhs) by (nonlinear_arith)
                        requires
                            q == self.secs * rhs + extra_secs,
                            extra_secs >= 0,
                    ;
                }
                None
            },
        }
    }
}

/// `2u32.saturating_pow(n)`: two to the power `n`, or `u32::MAX` where that
/// does not fit.
pub open spec fn saturating_two_pow(n: nat) -> nat {
    if two_pow(n) > u32::MAX {
        u32::MAX as nat
    } else {
        two_pow(n)
    }
}

/// `2u32.saturating_pow(n)`.
fn saturating_pow2(n: u32) -> (r: u32)
    ensures
        r == saturating_two_pow(n as nat),
{
    if n >= 32 {
        proof {
            lemma_two_pow_32();
            lemma_two_pow_monotone(32, n as nat);
        }
        return u32::MAX;
    }
    proof {
        lemma_two_pow_32();
        lemma_two_pow_monotone(n as nat, 31);
        assert(two_pow(32) == 2 * two_pow(31));
    }
    let mut f: u32 = 1;
    let mut i: u32 = 0;
    while i < n
        invariant
            i <= n < 32,
            f == two_pow(i as nat),
            two_pow(n as nat) <= two_pow(31),
            two_pow(31) == 0x8000_0000,
        decreases n - i,
    {
        proof {
            lemma_two_pow_monotone((i + 1) as nat, n as nat);
        }
        f = f * 2;
        i = i + 1;
    }
    f
}

/// Restart policy for the aria2c daemon.
#[derive(Debug, Clone, Copy)]
pub enum RestartPolicy {
    /// Never restart on failure.
    Never,
    /// Always restart on failure.
    Always,
    /// Restart up to `max_retries` times with exponential backoff.
    OnFailure { max_retries: u32, base_delay: Delay },
}

impl Default for RestartPolicy {
    fn default() -> (p: RestartPolicy)
        ensures
            p matches RestartPolicy::OnFailure { max_retries, base_delay } && max_retries == 5
                && base_delay@ == NANOS_PER_SEC,
    {
        RestartPolicy::OnFailure { max_retries: 5, base_delay: Delay::from_secs(1) }
    }
}

/// What a supervisor state holds.
pub struct SupervisorView {
    pub restart_count: u32,
    pub policy: RestartPolicy,
    pub is_running: bool,
}

/// Whether a state with this count and policy attempts another restart.
pub open spec fn spec_should_restart(v: SupervisorView) -> bool {
    match v.policy {
        RestartPolicy::Never => false,
        RestartPolicy::Always => true,
        RestartPolicy::OnFailure { max_retries, .. } => v.restart_count < max_retries,
    }
}

/// The backoff, in nanoseconds, before the next restart attempt.
pub open spec fn spec_restart_delay(v: SupervisorView) -> nat {
    match v.policy {
        RestartPolicy::OnFailure { base_delay, .. } => base_delay@ * saturating_two_pow(
            v.restart_count as nat,
        ),
        _ => NANOS_PER_SEC as nat,
    }
}

/// Whether the backoff before the next restart attempt fits in a `Delay`.
pub open spec fn spec_delay_fits(v: SupervisorView) -> bool {
    spec_restart_delay(v) <= max_delay_nanos()
}

/// Supervisor state for tracking restart attempts.
#[derive(Debug)]
pub struct SupervisorState {
    restart_count: u32,
    policy: RestartPolicy,
    is_running: bool,
}

impl View for SupervisorState {
    type V = SupervisorView;

    closed spec fn view(&self) -> SupervisorView {
        SupervisorView {
            restart_count: self.restart_count,
            policy: self.policy,
            is_running: self.is_running,
        }
    }
}

impl SupervisorState {
    pub fn new(policy: RestartPolicy) -> (s: SupervisorState)
        ensures
            s@.restart_count == 0,
            s@.policy == policy,
            !s@.is_running,
    {
        SupervisorState { restart_count: 0, policy, is_running: false }
    }

    /// Check if we should attempt a restart based on the policy.
    pub fn should_restart(&self) -> (r: bool)
        ensures
            r == spec_should_restart(self@),
    {
        match &self.policy {
            RestartPolicy::Never => false,
            RestartPolicy::Always => true,
            RestartPolicy::OnFailure { max_retries, .. } => self.restart_count < *max_retries,
        }
    }

    /// Whether the next backoff fits (where it does not, `restart_delay`
    /// would overflow).
    pub fn delay_fits(&self) -> (r: bool)
        ensures
            r == spec_delay_fits(self@),
    {
        match &self.policy {
            RestartPolicy::OnFailure { base_delay, .. } => {
                let factor = saturating_pow2(self.restart_count);
                base_delay.checked_mul(factor).is_some()
            },
            _ => true,
        }
    }

    /// Get the delay before the next restart attempt: `base_delay * 2^count`
    /// (the power saturating at `u32::MAX`) under `OnFailure`, one second
    /// otherwise.
    pub fn restart_delay(&self) -> (d: Delay)
        requires
            spec_delay_fits(self@),
        ensures
            d@ == spec_restart_delay(self@),
    {
        match &self.policy {
            RestartPolicy::OnFailure { base_delay, .. } => {
                let factor = saturating_pow2(self.restart_count);
                match base_delay.checked_mul(factor) {
                    Some(d) => d,
                    None => Delay::from_secs(1),
                }
            },
            _ => Delay::from_secs(1),
        }
    }

    /// Record a restart attempt.
    pub fn record_restart(&mut self)
        requires
            old(self)@.restart_count < u32::MAX,
        ensures
            final(self)@.restart_count == old(self)@.restart_count + 1,
            final(self)@.policy == old(self)@.policy,
            final(self)@.is_running == old(self)@.is_running,
    {
        self.restart_count = self.restart_count + 1;
    }

    /// Reset restart counter (called on successful startup).
    pub fn reset(&mut self)
        ensures
            final(self)@.restart_count == 0,
            final(self)@.policy == old(self)@.policy,
            final(self)@.is_running,
    {
        self.restart_count = 0;
        self.is_running = true;
    }

    /// Mark as stopped.
    pub fn mark_stopped(&mut self)
        ensures
            final(self)@.restart_count == old(self)@.restart_count,
            final(self)@.policy == old(self)@.policy,
            !final(self)@.is_running,
    {
        self.is_running = false;
    }
}

/// How one run of the aria2c process ended.
#[derive(Debug, Clone, Copy, PartialEq, Eq, Structural)]
pub enum ProcessOutcome {
    /// The process could not be spawned.
    SpawnFailed,
    /// The process ran and exited; `success` tells whether its status was success.
    Exited { success: bool },
    /// Waiting for the process failed.
    WaitFailed,
}

/// What the supervisor does after a run of the process ended.
#[derive(Debug, Clone, Copy)]
pub enum SupervisorAction {
    /// The process exited successfully: supervision ends without error.
    Finish,
    /// The restart policy is exhausted: supervision ends with an error.
    GiveUp,
    /// Sleep for the delay, then spawn the process again.
    RestartAfter(Delay),
}

/// Aria2 process supervisor.
pub struct Aria2Supervisor {
    state: SupervisorState,
}

impl View for Aria2Supervisor {
    type V = SupervisorView;

    closed spec fn view(&self) -> SupervisorView {
        self.state@
    }
}

impl Aria2Supervisor {
    pub fn new(policy: RestartPolicy) -> (s: Aria2Supervisor)
        ensures
            s@.restart_count == 0,
            s@.policy == policy,
            !s@.is_running,
    {
        Aria2Supervisor { state: SupervisorState::new(policy) }
    }

    /// The process was spawned: the restart count is reset and it is running.
    pub fn on_spawned(&mut self)
        ensures
            final(self)@.restart_count == 0,
            final(self)@.policy == old(self)@.policy,
            final(self)@.is_running,
    {
        self.state.reset();
    }

    /// Whether `on_ended` may be called with `outcome` in the present state:
    /// false only where a restart would be due and its backoff or count would
    /// overflow.
    pub fn can_handle(&self, outcome: ProcessOutcome) -> (r: bool)
        ensures
            r == (outcome == (ProcessOutcome::Exited { success: true }) || !spec_should_restart(
                self@,
            ) || (spec_delay_fits(self@) && self@.restart_count < u32::MAX)),
    {
        match outcome {
            ProcessOutcome::Exited { success: true } => true,
            _ => !self.state.should_restart() || (self.state.delay_fits()
                && self.state.restart_count < u32::MAX),
        }
    }

    /// A run of the process ended with `outcome`: a successful exit ends
    /// supervision; otherwise the policy is asked for a restart, whose backoff
    /// is returned and counted.
    pub fn on_ended(&mut self, outcome: ProcessOutcome) -> (a: SupervisorAction)
        requires
            outcome == (ProcessOutcome::Exited { success: true }) || !spec_should_restart(
                old(self)@,
            ) || (spec_delay_fits(old(self)@) && old(self)@.restart_count < u32::MAX),
        ensures
            final(self)@.policy == old(self)@.policy,
            outcome == ProcessOutcome::SpawnFailed ==> final(self)@.is_running
                == old(self)@.is_running,
            outcome != ProcessOutcome::SpawnFailed ==> !final(self)@.is_running,
            outcome == (ProcessOutcome::Exited { success: true }) ==> a is Finish
                && final(self)@.restart_count == old(self)@.restart_count,
            outcome != (ProcessOutcome::Exited { success: true }) && !spec_should_restart(
                old(self)@,
            ) ==> a is GiveUp && final(self)@.restart_count == old(self)@.restart_count,
            outcome != (ProcessOutcome::Exited { success: true }) && spec_should_restart(old(self)@)
                ==> (a matches SupervisorAction::RestartAfter(d) && d@ == spec_restart_delay(
                old(self)@,
            )) && final(self)@.restart_count == old(self)@.restart_count + 1,
    {
        match outcome {
            ProcessOutcome::Exited { success } => {
                self.state.mark_stopped();
                if success {
                    return SupervisorAction::Finish;
                }
            },
            ProcessOutcome::WaitFailed => {
                self.state.mark_stopped();
            },
            ProcessOutcome::SpawnFailed => {},
        }
        if !self.state.should_restart() {
            return SupervisorAction::GiveUp;
        }
        let delay = self.state.restart_delay();
        self.state.record_restart();
        SupervisorAction::RestartAfter(delay)
    }
}

/// Under `OnFailure`, each recorded restart doubles the backoff, as long as
/// the power of two has not reached the saturation point of `u32`.
pub proof fn lemma_backoff_doubles(
    before: SupervisorView,
    after: SupervisorView,
)
    requires
        before.policy is OnFailure,
        after.policy == before.policy,
        after.restart_count == before.restart_count + 1,
        after.restart_count < 32,
    ensures
        spec_restart_delay(after) == 2 * spec_restart_delay(before),
{
    let n = before.restart_count as nat;
    lemma_two_pow_32();
    lemma_two_pow_monotone(n + 1, 31);
    assert(two_pow(32) == 2 * two_pow(31));
    assert(two_pow(n + 1) == 2 * two_pow(n));
    if let RestartPolicy::OnFailure { base_delay, .. } = before.policy {
        let b = base_delay@;
        assert(b * (2 * two_pow(n)) == 2 * (b * two_pow(n))) by (nonlinear_arith);
    }
}

/// Under `OnFailure { max_retries, .. }` restarts are attempted while fewer
/// than `max_retries` have been recorded, and refused from then on; `Never`
/// refuses all and `Always` grants all.
pub proof fn lemma_retry_budget(v: SupervisorView)
    ensures
        v.policy is Never ==> !spec_should_restart(v),
        v.policy is Always ==> spec_should_restart(v),
        v.policy matches RestartPolicy::OnFailure { max_retries, .. } ==> (spec_should_restart(v)
            <==> v.restart_count < max_retries),
{
}

} // verus!
