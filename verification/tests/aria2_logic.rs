use rustaria::aria2::methods::method;
use rustaria::aria2::daemon::{rpc_port, Daemon};
use rustaria::aria2::events::{Aria2Event, EventHandler};
use rustaria::aria2::rpc::{call_outcome, method_name, secret_token, with_secret, ws_url, RpcFailure, RpcFault};
use rustaria::aria2::session::{SessionError, SessionManager};
use rustaria::config::Config;
use rustaria::queue::job::JobStatus;

#[test]
fn rpc_port_from_url() {
    assert_eq!(rpc_port("http://127.0.0.1:6800/jsonrpc"), 6800);
    assert_eq!(rpc_port("http://localhost:6801/jsonrpc"), 6801);
    assert_eq!(rpc_port("http://localhost:7000"), 7000);
    assert_eq!(rpc_port("http://localhost:7000/jsonrpc/jsonrpc"), 7000);
    assert_eq!(rpc_port("http://localhost/jsonrpc"), 6800);
    assert_eq!(rpc_port(""), 6800);
    assert_eq!(rpc_port("http://h:99999/jsonrpc"), 6800);
    assert_eq!(rpc_port("http://h:123/x"), 6800);
}

#[test]
fn daemon_settings_from_default_config() {
    let config = Config::default();
    let d = Daemon::new(&config).unwrap();
    assert_eq!(d.binary_path(), "aria2c");
    assert_eq!(
        d.command_args(),
        vec![
            "--enable-rpc".to_string(),
            "--rpc-listen-port=6800".to_string(),
            "--rpc-listen-all=false".to_string(),
            "--max-connection-per-server=16".to_string(),
            "--split=16".to_string(),
        ]
    );
}

#[test]
fn daemon_settings_with_secret_and_binary() {
    let mut config = Config::default();
    config.aria2.binary_path = "/usr/local/bin/aria2c".to_string();
    config.aria2.rpc_secret = "s3".to_string();
    config.aria2.rpc_url = "http://localhost:6900/jsonrpc".to_string();
    config.aria2.extra_args = vec![];
    let d = Daemon::new(&config).unwrap();
    assert_eq!(d.binary_path(), "/usr/local/bin/aria2c");
    assert_eq!(
        d.command_args(),
        vec![
            "--enable-rpc".to_string(),
            "--rpc-listen-port=6900".to_string(),
            "--rpc-listen-all=false".to_string(),
            "--rpc-secret=s3".to_string(),
        ]
    );
}

#[test]
fn rpc_request_pieces() {
    assert_eq!(secret_token(""), None);
    assert_eq!(secret_token("abc"), Some("token:abc".to_string()));
    assert_eq!(method_name("addUri"), "aria2.addUri");
    assert_eq!(with_secret(Some(0), vec![1, 2]), vec![0, 1, 2]);
    assert_eq!(with_secret(None, vec![1, 2]), vec![1, 2]);
}

#[test]
fn rpc_call_outcomes() {
    let r: Result<u32, RpcFailure> = call_outcome(Some(5), None);
    assert_eq!(r.unwrap(), 5);
    let r: Result<u32, RpcFailure> =
        call_outcome(Some(5), Some(RpcFault { code: 1, message: "Unauthorized".to_string() }));
    match r {
        Err(RpcFailure::Remote { code, message }) => {
            assert_eq!(code, 1);
            assert_eq!(message, "Unauthorized");
        }
        other => panic!("unexpected {:?}", other),
    }
    let r: Result<u32, RpcFailure> = call_outcome(None, None);
    assert!(matches!(r, Err(RpcFailure::EmptyResponse)));
}

#[test]
fn websocket_url() {
    assert_eq!(ws_url("http://127.0.0.1:6800/jsonrpc"), "ws://127.0.0.1:6800/jsonrpc");
    assert_eq!(ws_url("https://host:443/jsonrpc"), "wss://host:443/jsonrpc");
    assert_eq!(ws_url("ws://already"), "ws://already");
}

#[test]
fn session_register_lookup_remove() {
    let mut s = SessionManager::new_in("/tmp/session");
    assert_eq!(s.data_dir(), "/tmp/session");
    s.register("gid1".to_string(), 1);
    s.register("gid2".to_string(), 2);
    assert_eq!(s.get_job_id("gid1"), Some(1));
    assert_eq!(s.get_gid(2), Some("gid2".to_string()));
    s.register("gid1".to_string(), 3);
    assert_eq!(s.get_job_id("gid1"), Some(3));
    assert_eq!(s.get_gid(3), Some("gid1".to_string()));
    s.remove_by_gid("gid2");
    assert_eq!(s.get_job_id("gid2"), None);
    assert_eq!(s.get_gid(2), None);
    s.remove_by_job(3);
    assert_eq!(s.get_job_id("gid1"), None);
    assert_eq!(s.get_gid(3), None);
}

#[test]
fn session_bytes_round_trip() {
    let mut s = SessionManager::new_in("/tmp/session");
    s.register("a".to_string(), 10);
    s.register("b".to_string(), 20);
    let bytes = s.save_bytes().unwrap();
    let mut t = SessionManager::new_in("/tmp/other");
    t.load_bytes(&bytes).unwrap();
    assert_eq!(t.get_job_id("a"), Some(10));
    assert_eq!(t.get_job_id("b"), Some(20));
    assert_eq!(t.get_gid(20), Some("b".to_string()));
    let mut u = SessionManager::new_in("/tmp/other");
    let r = u.load_bytes(&[1, 2, 3]);
    assert!(matches!(r, Err(SessionError::Decode)));
    assert_eq!(u.get_job_id("a"), None);
}

#[test]
fn session_new_expands_home() {
    let s = SessionManager::new("/abs/dir");
    assert_eq!(s.data_dir(), "/abs/dir");
    let t = SessionManager::new("~/data");
    assert!(!t.data_dir().starts_with('~'));
    assert!(t.data_dir().ends_with("/data"));
}

#[test]
fn events_from_notifications() {
    let e = Aria2Event::from_notification("aria2.onDownloadComplete", "g".to_string()).unwrap();
    assert_eq!(e.gid(), "g");
    assert_eq!(e.target_status(), JobStatus::Complete);
    let e = Aria2Event::from_notification("aria2.onBtDownloadComplete", "g".to_string()).unwrap();
    assert_eq!(e.target_status(), JobStatus::Complete);
    let e = Aria2Event::from_notification("aria2.onDownloadStart", "g".to_string()).unwrap();
    assert_eq!(e.target_status(), JobStatus::Active);
    let e = Aria2Event::from_notification("aria2.onDownloadPause", "g".to_string()).unwrap();
    assert_eq!(e.target_status(), JobStatus::Paused);
    let e = Aria2Event::from_notification("aria2.onDownloadStop", "g".to_string()).unwrap();
    assert_eq!(e.target_status(), JobStatus::Stopped);
    let e = Aria2Event::from_notification("aria2.onDownloadError", "g".to_string()).unwrap();
    assert_eq!(e.target_status(), JobStatus::Failed);
    assert!(Aria2Event::from_notification("aria2.somethingElse", "g".to_string()).is_none());
}

#[test]
fn event_handler_maps_gid_to_job() {
    let mut s = SessionManager::new_in("/tmp/session");
    s.register("gid7".to_string(), 7);
    let e = Aria2Event::DownloadError("gid7".to_string());
    assert_eq!(EventHandler::handle(&e, &s), Some((7, JobStatus::Failed)));
    let e = Aria2Event::DownloadStart("unknown".to_string());
    assert_eq!(EventHandler::handle(&e, &s), None);
}

#[test]
fn method_constants_are_full_names() {
    assert_eq!(method_name("addUri"), method::ADD_URI);
    assert_eq!(method_name("tellStatus"), method::TELL_STATUS);
    assert_eq!(method_name("getGlobalStat"), method::GET_GLOBAL_STAT);
    assert_eq!(method::MULTICALL, "system.multicall");
}

#[test]
fn session_bytes_layout() {
    let mut s = SessionManager::new_in("/tmp/session");
    s.register("ab".to_string(), -2);
    let bytes = s.save_bytes().unwrap();
    let mut expect = vec![1, 0, 0, 0, 0, 0, 0, 0, 2, 0, 0, 0, 0, 0, 0, 0, b'a', b'b'];
    expect.extend_from_slice(&(-2i64).to_le_bytes());
    assert_eq!(bytes, expect);
    // Trailing bytes are ignored; a GID that is not UTF-8 is refused.
    let mut t = SessionManager::new_in("/tmp/other");
    let mut longer = bytes.clone();
    longer.push(9);
    t.load_bytes(&longer).unwrap();
    assert_eq!(t.get_job_id("ab"), Some(-2));
    let mut bad = bytes.clone();
    bad[16] = 0xff;
    assert!(SessionManager::new_in("/x").load_bytes(&bad).is_err());
}
