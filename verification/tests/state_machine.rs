use rustaria::queue::{Job, JobStatus, StateMachine};

#[test]
fn test_valid_transitions() {
    assert!(StateMachine::can_transition(&JobStatus::Queued, &JobStatus::Active));
    assert!(StateMachine::can_transition(&JobStatus::Active, &JobStatus::Paused));
    assert!(StateMachine::can_transition(&JobStatus::Paused, &JobStatus::Active));
    assert!(StateMachine::can_transition(&JobStatus::Active, &JobStatus::Complete));
    assert!(StateMachine::can_transition(&JobStatus::Failed, &JobStatus::Queued));
}

#[test]
fn test_invalid_transitions() {
    assert!(!StateMachine::can_transition(&JobStatus::Queued, &JobStatus::Complete));
    assert!(!StateMachine::can_transition(&JobStatus::Complete, &JobStatus::Active));
    assert!(!StateMachine::can_transition(&JobStatus::Paused, &JobStatus::Complete));
}

const ALL: [JobStatus; 6] = [
    JobStatus::Queued,
    JobStatus::Active,
    JobStatus::Paused,
    JobStatus::Stopped,
    JobStatus::Complete,
    JobStatus::Failed,
];

#[test]
fn listed_successors_are_the_valid_transitions() {
    for from in ALL {
        let next = StateMachine::valid_transitions(&from);
        for to in ALL {
            assert_eq!(next.contains(&to), StateMachine::can_transition(&from, &to));
        }
        assert_eq!(next.is_empty(), StateMachine::is_terminal(&from));
    }
}

#[test]
fn retry_and_terminal_states() {
    assert!(StateMachine::is_terminal(&JobStatus::Complete));
    assert!(!StateMachine::is_terminal(&JobStatus::Failed));
    assert!(StateMachine::can_retry(&JobStatus::Failed));
    assert!(StateMachine::can_retry(&JobStatus::Stopped));
    assert!(!StateMachine::can_retry(&JobStatus::Paused));
    for s in ALL {
        if StateMachine::can_retry(&s) {
            assert!(StateMachine::can_transition(&s, &JobStatus::Queued));
            assert!(StateMachine::can_transition(&s, &JobStatus::Active));
        }
        assert!(!StateMachine::can_transition(&s, &s));
    }
    assert_eq!(
        StateMachine::valid_transitions(&JobStatus::Active),
        vec![JobStatus::Paused, JobStatus::Complete, JobStatus::Failed, JobStatus::Stopped]
    );
}

#[test]
fn status_words() {
    for s in ALL {
        assert_eq!(JobStatus::parse(s.as_str()), Some(s));
        assert_eq!(s.as_str().parse::<JobStatus>().ok(), Some(s));
    }
    assert_eq!(JobStatus::parse("QUEUED"), Some(JobStatus::Queued));
    assert_eq!(JobStatus::parse("Complete"), Some(JobStatus::Complete));
    assert_eq!(JobStatus::parse("done"), None);
    assert!("bogus".parse::<JobStatus>().is_err());
    assert_eq!(JobStatus::Stopped.as_str(), "stopped");
}

#[test]
fn job_predicates() {
    let mut job = Job::new_at(
        "https://example.com/a.zip".to_string(),
        Some("a.zip".to_string()),
        None,
        None,
        vec![],
        1700000000,
    );
    assert_eq!(job.status, JobStatus::Queued);
    assert_eq!(job.created_at, 1700000000);
    assert_eq!(job.updated_at, 1700000000);
    assert!(job.can_start());
    assert!(!job.can_pause());
    assert!(!job.is_finished());
    job.status = JobStatus::Active;
    assert!(job.can_pause());
    assert!(!job.can_start());
    job.status = JobStatus::Stopped;
    assert!(job.is_finished());
    let fresh = Job::new("u".to_string(), None, None, Some("c".to_string()), vec!["t".to_string()]);
    assert_eq!(fresh.id, 0);
    assert_eq!(fresh.tags, vec!["t".to_string()]);
    assert_eq!(fresh.created_at, fresh.updated_at);
}
