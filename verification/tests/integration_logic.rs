use rustaria::integration::clipboard::{compile_patterns, is_url, ClipboardMonitor};
use rustaria::integration::messaging::{Header, Message};
use rustaria::integration::native_host::{
    accept_length, frame, handle_message, invalid_message, message_length, Reply, MAX_MESSAGE_LEN,
};
use rustaria::integration::patterns::{PatternMatcher, UrlPattern};
use rustaria::integration::sniffer::{MediaSniffer, MediaType};

#[test]
fn url_prefixes() {
    assert!(is_url("http://example.com"));
    assert!(is_url("https://example.com"));
    assert!(is_url("ftp://example.com"));
    assert!(is_url("magnet:?xt=urn:btih:abc"));
    assert!(!is_url("example.com"));
    assert!(!is_url("HTTP://example.com"));
    assert!(!is_url(""));
}

#[test]
fn clipboard_monitor_reports_new_matching_content() {
    let patterns = vec![r"\.zip$".to_string(), "(".to_string(), r"^magnet:".to_string()];
    assert_eq!(compile_patterns(&patterns).len(), 2);
    let mut m = ClipboardMonitor::new(&patterns).unwrap();
    assert_eq!(m.observe("https://x.org/a.zip".to_string()), Some("https://x.org/a.zip".to_string()));
    assert_eq!(m.observe("https://x.org/a.zip".to_string()), None);
    assert_eq!(m.observe("hello".to_string()), None);
    assert_eq!(m.observe("magnet:?xt=1".to_string()), Some("magnet:?xt=1".to_string()));
    assert!(ClipboardMonitor::new(&vec!["(".to_string()]).is_none());
    assert!(ClipboardMonitor::new(&vec![]).is_none());
}

#[test]
fn url_patterns_and_matcher() {
    let mut m = PatternMatcher::new();
    assert!(!m.matches("https://youtube.com/watch"));
    m.add(UrlPattern::new("youtube\\.com", Some("video".to_string())).unwrap());
    m.add(UrlPattern::new("\\.pdf$", None).unwrap());
    m.add(UrlPattern::new("\\.com", Some("web".to_string())).unwrap());
    assert!(UrlPattern::new("(", None).is_err());
    assert!(m.matches("https://youtube.com/watch"));
    assert_eq!(m.categorize("https://youtube.com/watch"), Some("video"));
    assert_eq!(m.categorize("https://example.org/doc.pdf"), None);
    assert_eq!(m.categorize("https://example.com/doc.txt"), Some("web"));
    assert!(m.find_match("https://example.org/x").is_none());
    let p = m.find_match("https://example.org/doc.pdf").unwrap();
    assert_eq!(p.category(), None);
    let d = PatternMatcher::default();
    assert!(!d.matches("anything"));
}

#[test]
fn media_detection() {
    let s = MediaSniffer::new().unwrap();
    assert_eq!(s.detect("https://cdn/x/master.m3u8"), Some(MediaType::Hls));
    assert_eq!(s.detect("https://cdn/x/master.m3u8?token=1"), Some(MediaType::Hls));
    assert_eq!(s.detect("https://cdn/x/manifest.mpd"), Some(MediaType::Dash));
    assert_eq!(s.detect("https://cdn/x/video.mp4"), Some(MediaType::Direct));
    assert_eq!(s.detect("https://cdn/x/page.html"), None);
    assert!(MediaType::Hls.requires_ffmpeg());
    assert!(MediaType::Dash.requires_ffmpeg());
    assert!(!MediaType::Direct.requires_ffmpeg());
}

#[test]
fn media_links_in_html() {
    let s = MediaSniffer::new().unwrap();
    let html = r#"<a href="https://a/b.mp4">x</a><img src='https://a/c.png'><video src="https://a/d.m3u8?x=1">"#;
    assert_eq!(
        s.extract_from_html(html),
        vec!["https://a/b.mp4".to_string(), "https://a/d.m3u8?x=1".to_string()]
    );
    assert_eq!(s.try_extract_from_html("<p>none</p>"), Some(vec![]));
}

#[test]
fn native_message_framing() {
    assert_eq!(message_length([5, 0, 0, 0]), 5);
    assert_eq!(message_length([0, 1, 0, 0]), 256);
    assert_eq!(message_length([1, 2, 3, 4]), u32::from_le_bytes([1, 2, 3, 4]));
    assert!(accept_length(MAX_MESSAGE_LEN));
    assert!(!accept_length(MAX_MESSAGE_LEN + 1));
    let body = b"{\"type\":\"pong\"}".to_vec();
    let framed = frame(&body);
    assert_eq!(&framed[0..4], &(body.len() as u32).to_le_bytes());
    assert_eq!(&framed[4..], &body[..]);
    assert_eq!(message_length([framed[0], framed[1], framed[2], framed[3]]), body.len() as u32);
}

#[test]
fn native_message_replies() {
    assert!(matches!(handle_message(Message::Ping, "1.0"), Reply::Pong));
    match handle_message(
        Message::AddDownload {
            url: "https://x/y.zip".to_string(),
            filename: None,
            headers: vec![Header { name: "A".to_string(), value: "b".to_string() }],
            cookies: None,
            referer: None,
        },
        "1.0",
    ) {
        Reply::Queued { url } => assert_eq!(url, "https://x/y.zip"),
        other => panic!("unexpected {:?}", other),
    }
    assert!(matches!(
        handle_message(Message::GetStatus, "1.0"),
        Reply::Status { active: 0, queued: 0, completed: 0 }
    ));
    match handle_message(Message::GetConfig, "0.1.0") {
        Reply::Config { version } => assert_eq!(version, "0.1.0"),
        other => panic!("unexpected {:?}", other),
    }
    match invalid_message() {
        Reply::Error { message } => assert_eq!(message, "Invalid message format"),
        other => panic!("unexpected {:?}", other),
    }
}

#[test]
fn header_line() {
    let h = Header { name: "Accept".to_string(), value: "*/*".to_string() };
    assert_eq!(h.to_header_string(), "Accept: */*");
}
