use rustaria::aria2::session::SessionManager;
use rustaria::paths::{extension, file_name, file_stem, join, same_path, with_extension};
use std::path::{Path, PathBuf};

const SAMPLES: &[&str] = &[
    "", "/", ".", "..", "./", "a", "a/", "a/.", "a/./", "a/..", "../a", "/a/b.txt", "/a/b.tar.gz",
    ".bashrc", "dir/.hidden", "x.", "a/b/c.d/", "a//b.mp4", "./a.m3u8", "/tmp/x.y/z", "no_ext",
    "a.b.c", "/.", "//", "a/b/..", "./.", "c:d.e", "a..b",
];

#[test]
fn path_parts_match_std() {
    for s in SAMPLES {
        let p = Path::new(s);
        assert_eq!(file_name(s), p.file_name().map(|n| n.to_str().unwrap().to_string()), "{:?}", s);
        assert_eq!(extension(s), p.extension().map(|n| n.to_str().unwrap().to_string()), "{:?}", s);
        assert_eq!(file_stem(s), p.file_stem().map(|n| n.to_str().unwrap().to_string()), "{:?}", s);
        assert_eq!(with_extension(s, "mp4"), p.with_extension("mp4").to_str().unwrap(), "{:?}", s);
        assert_eq!(with_extension(s, ""), p.with_extension("").to_str().unwrap(), "{:?}", s);
    }
}

#[test]
fn joins_and_comparisons_match_std() {
    for a in SAMPLES {
        for b in ["x", "/abs", "y/z", ""] {
            assert_eq!(join(a, b), PathBuf::from(a).join(b).to_str().unwrap(), "{:?}", (a, b));
        }
        for b in SAMPLES {
            assert_eq!(same_path(a, b), Path::new(a) == Path::new(b), "{:?}", (a, b));
        }
    }
}

#[test]
fn tilde_expansion() {
    assert_eq!(SessionManager::new("/abs/path").data_dir(), "/abs/path");
    assert_eq!(SessionManager::new("~user/x").data_dir(), "~user/x");
    let e = SessionManager::new("~/Downloads");
    assert!(e.data_dir().ends_with("/Downloads"));
}
