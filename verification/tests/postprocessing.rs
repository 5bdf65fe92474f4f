use rustaria::config::{Categories, Config};
use rustaria::postprocess::extractor::{archive_kind, is_archive, ArchiveKind};
use rustaria::postprocess::ffmpeg::{extract_audio_args, ffmpeg_binary, merge_args, merge_if_needed, probe_args};
use rustaria::postprocess::hooks::{hook_command, hook_env};
use rustaria::postprocess::organizer::{get_category, organize_in, OrganizeDecision};
use rustaria::postprocess::rules::Rule;
use rustaria::postprocess::{list_has_lower, lower_extension_of, process};
use rustaria::queue::job::{Job, JobStatus};

fn job(output: Option<&str>) -> Job {
    let mut j = Job::new_at(
        "https://example.com/file.zip".to_string(),
        Some("file.zip".to_string()),
        Some("/downloads".to_string()),
        Some("archives".to_string()),
        vec!["a".to_string(), "b".to_string()],
        100,
    );
    j.output_path = output.map(|s| s.to_string());
    j
}

#[test]
fn categories_by_extension() {
    let config = Config::default();
    assert_eq!(get_category("/d/movie.MP4", &config), Some("video".to_string()));
    assert_eq!(get_category("/d/song.flac", &config), Some("audio".to_string()));
    assert_eq!(get_category("/d/report.pdf", &config), Some("documents".to_string()));
    assert_eq!(get_category("/d/pack.7z", &config), Some("archives".to_string()));
    assert_eq!(get_category("/d/unknown.xyz", &config), None);
    assert_eq!(get_category("/d/noext", &config), None);
}

#[test]
fn organize_decisions() {
    let config = Config::default();
    match organize_in("/home/u/Downloads/movie.mkv", &config, "/home/u/Downloads") {
        OrganizeDecision::Move { dest_dir, dest_path } => {
            assert_eq!(dest_dir, "/home/u/Downloads/video");
            assert_eq!(dest_path, "/home/u/Downloads/video/movie.mkv");
        }
        other => panic!("unexpected {:?}", other),
    }
    match organize_in("/home/u/Downloads/video/movie.mkv", &config, "/home/u/Downloads") {
        OrganizeDecision::InPlace { dest_dir } => assert_eq!(dest_dir, "/home/u/Downloads/video"),
        other => panic!("unexpected {:?}", other),
    }
    assert!(matches!(
        organize_in("/home/u/Downloads/file.xyz", &config, "/home/u/Downloads"),
        OrganizeDecision::NoCategory
    ));
}

#[test]
fn archive_kinds() {
    assert_eq!(archive_kind("/d/a.zip"), Some(ArchiveKind::Zip));
    assert_eq!(archive_kind("/d/a.ZIP"), Some(ArchiveKind::Zip));
    assert_eq!(archive_kind("/d/a.tar.gz"), Some(ArchiveKind::TarGz));
    assert_eq!(archive_kind("/d/a.tgz"), None);
    assert_eq!(archive_kind("/d/plain.gz"), None);
    assert_eq!(archive_kind("/d/a.tar"), Some(ArchiveKind::Tar));
    assert_eq!(archive_kind("/d/a.rar"), None);
    assert!(is_archive("/d/a.zip"));
    assert!(is_archive("/d/a.tar.gz"));
    assert!(is_archive("/d/a.RAR"));
    assert!(is_archive("/d/a.7z"));
    assert!(!is_archive("/d/a.txt"));
}

#[test]
fn ffmpeg_commands() {
    assert_eq!(merge_if_needed("/d/stream.m3u8"), Some("/d/stream.mp4".to_string()));
    assert_eq!(merge_if_needed("/d/stream.MPD"), Some("/d/stream.mp4".to_string()));
    assert_eq!(merge_if_needed("/d/video.mp4"), None);
    let mut config = Config::default();
    assert_eq!(ffmpeg_binary(&config), "ffmpeg");
    config.postprocess.ffmpeg_path = "/opt/ffmpeg".to_string();
    assert_eq!(ffmpeg_binary(&config), "/opt/ffmpeg");
    assert_eq!(merge_args("in", "out"), vec!["-i", "in", "-c", "copy", "-y", "out"]);
    assert_eq!(extract_audio_args("in", "out"), vec!["-i", "in", "-vn", "-acodec", "copy", "-y", "out"]);
    assert_eq!(
        probe_args("f.mp4"),
        vec!["-v", "quiet", "-print_format", "json", "-show_format", "-show_streams", "f.mp4"]
    );
}

#[test]
fn hook_environment_and_command() {
    let mut j = job(Some("/downloads/file.zip"));
    j.id = 42;
    j.status = JobStatus::Complete;
    j.total_size = 4096;
    let env = hook_env(&j);
    let expect: Vec<(String, String)> = vec![
        ("FERRUM_JOB_ID", "42"),
        ("FERRUM_URL", "https://example.com/file.zip"),
        ("FERRUM_STATUS", "complete"),
        ("FERRUM_FILENAME", "file.zip"),
        ("FERRUM_OUTPUT_PATH", "/downloads/file.zip"),
        ("FERRUM_SIZE", "4096"),
        ("FERRUM_CATEGORY", "archives"),
        ("FERRUM_TAGS", "a,b"),
        ("FERRUM_ERROR", ""),
    ]
    .into_iter()
    .map(|(a, b)| (a.to_string(), b.to_string()))
    .collect();
    assert_eq!(env, expect);
    let (prog, args) = hook_command("echo hi");
    assert_eq!(prog, "sh");
    assert_eq!(args, vec!["-c".to_string(), "echo hi".to_string()]);
}

#[test]
fn process_plan() {
    let mut config = Config::default();
    config.hooks.on_complete = Some("notify.sh".to_string());
    assert!(process(&job(None), &config).is_none());
    let plan = process(&job(Some("/downloads/file.zip")), &config).unwrap();
    assert_eq!(plan.output_path, "/downloads/file.zip");
    assert!(plan.organize);
    assert!(!plan.extract);
    assert!(plan.merge);
    assert_eq!(plan.hook, Some("notify.sh".to_string()));
}

#[test]
fn extension_helpers() {
    assert_eq!(lower_extension_of("/a/B.TXT"), "txt");
    assert_eq!(lower_extension_of("/a/B"), "");
    let list = vec!["Mp4".to_string(), "mkv".to_string()];
    assert!(list_has_lower(&list, "mp4"));
    assert!(!list_has_lower(&list, "avi"));
}

#[test]
fn rule_matching() {
    let rule = Rule {
        name: "big videos".to_string(),
        extensions: vec!["mp4".to_string()],
        pattern: Some("^movie".to_string()),
        min_size: Some(100),
        max_size: Some(1000),
        destination: "videos".to_string(),
        date_subdirs: false,
    };
    assert!(rule.matches("/d/movie1.MP4", 500));
    assert!(!rule.matches("/d/clip.mp4", 500));
    assert!(!rule.matches("/d/movie1.mkv", 500));
    assert!(!rule.matches("/d/movie1.mp4", 50));
    assert!(!rule.matches("/d/movie1.mp4", 5000));
    let any = Rule {
        name: "any".to_string(),
        extensions: vec![],
        pattern: Some("(".to_string()),
        min_size: None,
        max_size: None,
        destination: "x".to_string(),
        date_subdirs: true,
    };
    assert!(any.matches("/d/whatever.bin", 0));
}

#[test]
fn rule_bounds_laws() {
    let crossed = Rule {
        name: "crossed".to_string(),
        extensions: vec![],
        pattern: None,
        min_size: Some(10),
        max_size: Some(5),
        destination: "x".to_string(),
        date_subdirs: false,
    };
    for size in [0, 5, 7, 10, u64::MAX] {
        assert!(!crossed.matches("/d/a.bin", size));
    }
    let open = Rule {
        name: "open".to_string(),
        extensions: vec![],
        pattern: None,
        min_size: None,
        max_size: None,
        destination: "x".to_string(),
        date_subdirs: false,
    };
    for (path, size) in [("/d/a.bin", 0), ("", u64::MAX), ("/", 1)] {
        assert!(open.matches(path, size));
    }
}

#[test]
fn category_names_are_distinct() {
    let pair = |n: &str, e: &[&str]| (n.to_string(), e.iter().map(|x| x.to_string()).collect::<Vec<_>>());
    let c = Categories::new(vec![pair("video", &["mp4"]), pair("audio", &["mp3"])]).unwrap();
    assert_eq!(c.len(), 2);
    assert_eq!(c.entries()[1].0, "audio");
    let copy = c.clone();
    assert_eq!(copy.entries(), c.entries());
    assert!(Categories::new(vec![pair("video", &["mp4"]), pair("audio", &[]), pair("video", &["mkv"])]).is_none());
    assert!(Categories::new(vec![]).is_some());
    let mut config = Config::default();
    config.postprocess.categories = Categories::new(vec![pair("clips", &["MP4"])]).unwrap();
    assert_eq!(get_category("/d/a.mp4", &config), Some("clips".to_string()));
}
