use rustaria::db::state::{AppState, QueueState, ResumeData, SchedulerState, StateStore};

fn resume(job: &str, bytes: u64) -> ResumeData {
    ResumeData {
        job_id: job.to_string(),
        gid: Some("abc123".to_string()),
        url: "https://example.com/file.zip".to_string(),
        dir: Some("/downloads".to_string()),
        filename: Some("file.zip".to_string()),
        downloaded_bytes: bytes,
        total_bytes: Some(4096),
        headers: Vec::new(),
        cookies: None,
    }
}

#[test]
fn test_resume_data() {
    let mut store = StateStore::new("/tmp/rustaria-state-test");

    let resume = ResumeData {
        job_id: "job1".to_string(),
        gid: Some("abc123".to_string()),
        url: "https://example.com/file.zip".to_string(),
        dir: Some("/downloads".to_string()),
        filename: Some("file.zip".to_string()),
        downloaded_bytes: 1024,
        total_bytes: Some(4096),
        headers: Vec::new(),
        cookies: None,
    };

    store.set_resume_data("job1".to_string(), resume);
    assert!(store.get_resume_data("job1").is_some());

    store.remove_resume_data("job1");
    assert!(store.get_resume_data("job1").is_none());
}

#[test]
fn state_path_is_file_in_data_dir() {
    let store = StateStore::new("/var/lib/rustaria");
    assert_eq!(store.state_path(), "/var/lib/rustaria/rustaria-state.toml");
}

#[test]
fn new_store_has_default_state() {
    let store = StateStore::new("/tmp/x");
    let s = store.state();
    assert!(s.queue.job_order.is_empty());
    assert!(!s.scheduler.is_running);
    assert!(s.resume_data.is_empty());
    assert!(s.last_saved.is_none());
}

#[test]
fn resume_data_overwrite_keeps_latest() {
    let mut store = StateStore::new("/tmp/x");
    store.set_resume_data("job1".to_string(), resume("job1", 1));
    store.set_resume_data("job2".to_string(), resume("job2", 2));
    store.set_resume_data("job1".to_string(), resume("job1", 3));
    assert_eq!(store.get_resume_data("job1").unwrap().downloaded_bytes, 3);
    assert_eq!(store.get_resume_data("job2").unwrap().downloaded_bytes, 2);
    let removed = store.remove_resume_data("job1");
    assert_eq!(removed.unwrap().downloaded_bytes, 3);
    assert!(store.get_resume_data("job1").is_none());
    assert!(store.remove_resume_data("job1").is_none());
    assert_eq!(store.get_resume_data("job2").unwrap().downloaded_bytes, 2);
}

#[test]
fn queue_and_scheduler_updates() {
    let mut store = StateStore::new("/tmp/x");
    store.update_queue(QueueState {
        job_order: vec!["job1".to_string(), "job2".to_string()],
        active_jobs: vec!["job1".to_string()],
        paused_jobs: vec![],
    });
    store.update_scheduler(SchedulerState {
        is_running: true,
        concurrency_limit: Some(3),
        bandwidth_limit: None,
        active_schedule: None,
    });
    store.mark_saved(1_700_000_000);
    assert_eq!(store.state().queue.job_order.len(), 2);
    assert!(store.state().scheduler.is_running);
    assert_eq!(store.state().last_saved, Some(1_700_000_000));
    store.state_mut().queue.paused_jobs.push("job3".to_string());
    assert_eq!(store.state().queue.paused_jobs, vec!["job3".to_string()]);
    store.clear();
    assert!(store.state().queue.job_order.is_empty());
    assert!(!store.state().scheduler.is_running);
    store.replace_state(AppState::default());
    assert!(store.state().last_saved.is_none());
}
