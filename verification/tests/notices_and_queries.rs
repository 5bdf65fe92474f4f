use rustaria::cli::commands::{filter_by_category, url_display};
use rustaria::db::queries::{completed_cutoff, list_limit, search_pattern};
use rustaria::ui::notify::{download_complete, download_error, notify, queue_empty};

#[test]
fn notification_contents() {
    let n = download_complete("file.zip");
    assert_eq!(n.summary, "Download Complete");
    assert_eq!(n.body, "file.zip has finished downloading");
    assert_eq!(n.icon, "dialog-information");
    assert_eq!(n.timeout_ms, 5000);
    let n = download_error("file.zip", "404");
    assert_eq!(n.summary, "Download Failed");
    assert_eq!(n.body, "file.zip: 404");
    assert_eq!(n.icon, "dialog-error");
    assert_eq!(n.timeout_ms, 10000);
    let n = queue_empty();
    assert_eq!(n.summary, "All Downloads Complete");
    assert_eq!(n.body, "The download queue is now empty");
    let n = notify("T", "B");
    assert_eq!((n.summary.as_str(), n.body.as_str(), n.timeout_ms), ("T", "B", 5000));
}

#[test]
fn query_values() {
    assert_eq!(search_pattern("example"), "%example%");
    assert_eq!(search_pattern(""), "%%");
    assert_eq!(list_limit(None), 100);
    assert_eq!(list_limit(Some(7)), 7);
    assert_eq!(completed_cutoff(1_000_000, 1), Some(1_000_000 - 86_400));
    assert_eq!(completed_cutoff(0, -2), Some(172_800));
    assert_eq!(completed_cutoff(0, i64::MAX), None);
    assert_eq!(completed_cutoff(i64::MIN, 1), None);
}

#[test]
fn url_display_cuts_long_urls() {
    let short = "https://example.com/file.zip";
    assert_eq!(url_display(short), short);
    let exact = "a".repeat(48);
    assert_eq!(url_display(&exact), exact);
    let long = format!("https://example.com/{}", "x".repeat(60));
    assert_eq!(url_display(&long), format!("{}...", &long[..45]));
    assert_eq!(url_display(&long).len(), 48);
}

#[test]
fn list_filter_by_category() {
    let cats = vec![Some("video".to_string()), None, Some("audio".to_string()), Some("video".to_string())];
    assert_eq!(filter_by_category(&cats, &None), vec![0, 1, 2, 3]);
    assert_eq!(filter_by_category(&cats, &Some("video".to_string())), vec![0, 3]);
    assert_eq!(filter_by_category(&cats, &Some("docs".to_string())), Vec::<usize>::new());
    assert_eq!(filter_by_category(&vec![], &Some("x".to_string())), Vec::<usize>::new());
}
