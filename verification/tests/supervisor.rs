use rustaria::aria2::supervisor::{
    Aria2Supervisor, Delay, ProcessOutcome, RestartPolicy, SupervisorAction, SupervisorState,
};

#[test]
fn test_restart_policy_default() {
    let state = SupervisorState::new(RestartPolicy::default());
    assert!(state.should_restart());
}

#[test]
fn test_restart_policy_never() {
    let state = SupervisorState::new(RestartPolicy::Never);
    assert!(!state.should_restart());
}

#[test]
fn test_exponential_backoff() {
    let mut state = SupervisorState::new(RestartPolicy::OnFailure {
        max_retries: 5,
        base_delay: Delay::from_secs(1),
    });

    assert_eq!(state.restart_delay(), Delay::from_secs(1));
    state.record_restart();
    assert_eq!(state.restart_delay(), Delay::from_secs(2));
    state.record_restart();
    assert_eq!(state.restart_delay(), Delay::from_secs(4));
}

#[test]
fn restart_policy_always_and_other_delays() {
    let state = SupervisorState::new(RestartPolicy::Always);
    assert!(state.should_restart());
    assert_eq!(state.restart_delay(), Delay::from_secs(1));
    let state = SupervisorState::new(RestartPolicy::Never);
    assert_eq!(state.restart_delay(), Delay::from_secs(1));
}

#[test]
fn retry_budget_runs_out() {
    let mut state = SupervisorState::new(RestartPolicy::OnFailure {
        max_retries: 2,
        base_delay: Delay::from_millis(250),
    });
    assert!(state.should_restart());
    assert_eq!(state.restart_delay(), Delay::from_millis(250));
    state.record_restart();
    assert!(state.should_restart());
    assert_eq!(state.restart_delay(), Delay::from_millis(500));
    state.record_restart();
    assert!(!state.should_restart());
    state.reset();
    assert!(state.should_restart());
}

#[test]
fn backoff_saturates_the_power_of_two() {
    let mut state = SupervisorState::new(RestartPolicy::OnFailure {
        max_retries: 100,
        base_delay: Delay::from_millis(1),
    });
    for _ in 0..40 {
        state.record_restart();
    }
    // 2u32.saturating_pow(40) == u32::MAX milliseconds
    let d = state.restart_delay();
    assert_eq!(d.as_secs(), 4294967);
    assert_eq!(d.subsec_nanos(), 295_000_000);
    assert!(state.delay_fits());
}

#[test]
fn delay_overflow_is_detected() {
    let big = Delay::from_secs(u64::MAX / 2 + 1);
    assert!(big.checked_mul(2).is_none());
    assert_eq!(Delay::from_secs(3).checked_mul(2), Some(Delay::from_secs(6)));
    let half = Delay::from_millis(1500);
    assert_eq!(half.checked_mul(3), Some(Delay::from_millis(4500)));
    assert_eq!(half.as_secs(), 1);
    assert_eq!(half.subsec_nanos(), 500_000_000);
}

#[test]
fn supervisor_steps() {
    let mut sup = Aria2Supervisor::new(RestartPolicy::OnFailure {
        max_retries: 1,
        base_delay: Delay::from_secs(1),
    });
    sup.on_spawned();
    assert!(sup.can_handle(ProcessOutcome::Exited { success: false }));
    match sup.on_ended(ProcessOutcome::Exited { success: false }) {
        SupervisorAction::RestartAfter(d) => assert_eq!(d, Delay::from_secs(1)),
        other => panic!("unexpected {:?}", other),
    }
    match sup.on_ended(ProcessOutcome::SpawnFailed) {
        SupervisorAction::GiveUp => {}
        other => panic!("unexpected {:?}", other),
    }
    sup.on_spawned();
    match sup.on_ended(ProcessOutcome::Exited { success: true }) {
        SupervisorAction::Finish => {}
        other => panic!("unexpected {:?}", other),
    }
}
