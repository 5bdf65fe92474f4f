use rustaria::config::location::{config_path_from, database_path};
use rustaria::config::Config;
use rustaria::queue::job::{Job, JobStatus};
use rustaria::queue::plan::{
    completion_stamp, decode_string_list, encode_string_list, remove_plan, start_options, QueueError, StoredJob,
};
use rustaria::scheduler::cron::CalendarTime;
use rustaria::scheduler::policy::Policy;
use rustaria::scheduler::Scheduler;
use rustaria::ui::tui::{KeyCode, KeyPress, TabView, TuiState};

fn job() -> Job {
    Job::new_at(
        "https://example.com/a.iso".to_string(),
        Some("a.iso".to_string()),
        Some("/dl".to_string()),
        None,
        vec![],
        1000,
    )
}

fn stored(status: &str, tags: &str) -> StoredJob {
    StoredJob {
        id: 9,
        url: "https://example.com/a.iso".to_string(),
        status: status.to_string(),
        gid: Some("g9".to_string()),
        filename: None,
        dir: None,
        output_path: Some("/dl/a.iso".to_string()),
        total_size: 100,
        downloaded: 50,
        speed: -1,
        category: None,
        tags: tags.to_string(),
        headers: "not json".to_string(),
        referer: None,
        user_agent: None,
        error: None,
        created_at: 1,
        updated_at: 2,
        completed_at: None,
    }
}

#[test]
fn new_job_is_queued_and_fresh() {
    let j = job();
    assert_eq!(j.status, JobStatus::Queued);
    assert_eq!(j.id, 0);
    assert_eq!(j.created_at, 1000);
    assert_eq!(j.updated_at, 1000);
    assert!(j.can_start());
    assert!(!j.can_pause());
    assert!(!j.is_finished());
    let now = Job::new("u".to_string(), None, None, None, vec![]);
    assert_eq!(now.created_at, now.updated_at);
    assert!(now.created_at > 1_600_000_000);
}

#[test]
fn status_words_parse_back() {
    for s in [
        JobStatus::Queued,
        JobStatus::Active,
        JobStatus::Paused,
        JobStatus::Stopped,
        JobStatus::Complete,
        JobStatus::Failed,
    ] {
        assert_eq!(JobStatus::parse(s.as_str()), Some(s));
        assert_eq!(s.as_str().parse::<JobStatus>().unwrap(), s);
        assert_eq!(s.as_str().to_uppercase().parse::<JobStatus>().unwrap(), s);
    }
    assert_eq!(JobStatus::parse("ACTIVE"), Some(JobStatus::Active));
    assert_eq!(JobStatus::parse("done"), None);
    assert_eq!("done".parse::<JobStatus>().unwrap_err().text, "done");
}

#[test]
fn starting_jobs() {
    let j = job();
    let o = start_options(&j).unwrap();
    assert_eq!(o.dir, Some("/dl".to_string()));
    assert_eq!(o.out, Some("a.iso".to_string()));
    assert!(o.header.is_none());
    let mut done = job();
    done.status = JobStatus::Complete;
    match start_options(&done) {
        Err(QueueError::CannotStart { status }) => assert_eq!(status, JobStatus::Complete),
        other => panic!("unexpected {:?}", other),
    }
    let mut active = job();
    active.status = JobStatus::Active;
    assert!(start_options(&active).is_err());
    let mut failed = job();
    failed.status = JobStatus::Failed;
    assert!(start_options(&failed).is_ok());
}

#[test]
fn removing_jobs() {
    let mut j = job();
    j.gid = Some("g1".to_string());
    j.output_path = Some("/dl/a.iso".to_string());
    let p = remove_plan(&j, true);
    assert_eq!(p.gid, Some("g1".to_string()));
    assert_eq!(p.delete_path, Some("/dl/a.iso".to_string()));
    let p = remove_plan(&j, false);
    assert_eq!(p.delete_path, None);
    assert_eq!(completion_stamp(JobStatus::Complete, 77), Some(77));
    assert_eq!(completion_stamp(JobStatus::Failed, 77), None);
}

#[test]
fn json_string_lists() {
    let v = vec!["a".to_string(), "b c".to_string()];
    let s = encode_string_list(&v).unwrap();
    assert_eq!(s, "[\"a\",\"b c\"]");
    assert_eq!(decode_string_list(&s), v);
    assert_eq!(decode_string_list("oops"), Vec::<String>::new());
    assert_eq!(decode_string_list("[]"), Vec::<String>::new());
}

#[test]
fn stored_rows_to_jobs() {
    let j = stored("Paused", "[\"x\"]").into_job().unwrap();
    assert_eq!(j.id, 9);
    assert_eq!(j.status, JobStatus::Paused);
    assert_eq!(j.tags, vec!["x".to_string()]);
    assert!(j.headers.is_empty());
    assert_eq!(j.speed, u64::MAX);
    assert_eq!(j.downloaded, 50);
    assert_eq!(j.output_path, Some("/dl/a.iso".to_string()));
    let e = stored("bogus", "[]").into_job().unwrap_err();
    assert_eq!(e.text, "bogus");
}

#[test]
fn scheduler_slots() {
    let mut config = Config::default();
    let s = Scheduler::new(&config).unwrap();
    assert_eq!(s.max_concurrent(), 5);
    assert_eq!(s.slots_to_fill(0), 5);
    assert_eq!(s.slots_to_fill(3), 2);
    assert_eq!(s.slots_to_fill(5), 0);
    assert_eq!(s.slots_to_fill(9), 0);
    config.scheduler.enabled = true;
    config.scheduler.active_window = Some("0 22 * * *".to_string());
    config.scheduler.bandwidth_limit = 1024;
    let mut s = Scheduler::new(&config).unwrap();
    assert!(s.policy().is_active_window());
    assert_eq!(s.policy().get_bandwidth_limit(), 1024);
    s.set_max_concurrent(1);
    assert_eq!(s.slots_to_fill(0), 1);
    let mut p = Policy::from_config(&config).unwrap();
    p.set_bandwidth_limit(0);
    let morning = CalendarTime { minute: 30, hour: 9, day: 14, month: 3, weekday: 2 };
    p.update_window(&morning);
    assert!(!p.is_active_window());
    let night = CalendarTime { minute: 0, hour: 22, day: 14, month: 3, weekday: 2 };
    p.update_window(&night);
    assert!(p.is_active_window());
    s.update_policy(p);
    assert_eq!(s.policy().get_bandwidth_limit(), 0);
    assert_eq!(s.max_concurrent(), 1);
}

#[test]
fn tui_keys() {
    let key = |code| KeyPress { code, control: false };
    let mut t = TuiState::new();
    assert_eq!(t.tab_view(), TabView::Downloads);
    t.on_key(key(KeyCode::BackTab));
    assert_eq!(t.selected_tab(), 0);
    for expected in [1, 2, 3, 0, 1] {
        t.on_key(key(KeyCode::Tab));
        assert_eq!(t.selected_tab(), expected);
    }
    assert_eq!(t.tab_view(), TabView::Completed);
    t.on_key(key(KeyCode::BackTab));
    assert_eq!(t.tab_view(), TabView::Downloads);
    t.on_key(key(KeyCode::Up));
    assert_eq!(t.selected_job(), 0);
    t.on_key(key(KeyCode::Down));
    t.on_key(key(KeyCode::Char('j')));
    assert_eq!(t.selected_job(), 2);
    t.on_key(key(KeyCode::Char('k')));
    assert_eq!(t.selected_job(), 1);
    t.on_key(key(KeyCode::Char('c')));
    assert!(!t.should_quit());
    t.on_key(KeyPress { code: KeyCode::Char('c'), control: true });
    assert!(t.should_quit());
    let mut u = TuiState::new();
    u.on_key(key(KeyCode::Char('q')));
    assert!(u.should_quit());
    u.on_key(key(KeyCode::Other));
    assert!(u.should_quit());
}

#[test]
fn config_locations() {
    assert_eq!(
        config_path_from(Some("/xdg".to_string()), Some("/home/u".to_string())),
        "/xdg/rustaria/config.toml"
    );
    assert_eq!(config_path_from(None, Some("/home/u".to_string())), "/home/u/.config/rustaria/config.toml");
    assert_eq!(config_path_from(None, None), "config.toml");
    assert_eq!(database_path("/data"), "/data/rustaria.db");
}

#[test]
fn config_defaults() {
    let c = Config::default();
    assert_eq!(c.general.download_dir, "~/Downloads");
    assert_eq!(c.general.max_concurrent, 5);
    assert!(!c.general.clipboard_monitor);
    assert_eq!(c.general.data_dir, "~/.local/share/rustaria");
    assert_eq!(c.aria2.rpc_url, "http://127.0.0.1:6800/jsonrpc");
    assert!(c.aria2.auto_start);
    assert!(!c.scheduler.enabled);
    assert!(c.postprocess.auto_organize);
    assert!(!c.postprocess.auto_extract);
    assert!(c.postprocess.merge_media);
    assert_eq!(c.postprocess.categories.len(), 4);
    assert!(c.hooks.on_complete.is_none());
    assert_eq!(c.ui.theme, "dark");
    assert_eq!(c.ui.refresh_rate, 250);
    assert!(c.ui.show_graph);
    assert!(c.notifications.enabled && c.notifications.on_complete && c.notifications.on_error);
    assert!(!c.notifications.on_queue_empty);
    assert!(c.integration.native_messaging);
    assert!(!c.integration.media_sniffer);
}
