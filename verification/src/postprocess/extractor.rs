//! Archive kinds: which files are archives, and how each is unpacked.

use vstd::prelude::*;
use crate::paths::{file_stem, spec_file_name, name_stem};
use crate::text::{ends_with, str_eq};
use super::{lower_extension, lower_extension_of};

verus! {

/// How an archive is unpacked into its directory.
#[derive(Debug, Clone, Copy, PartialEq, Eq, Structural)]
pub enum ArchiveKind {
    Zip,
    Tar,
    TarGz,
}

/// The stem of the path's file name (`Path::file_stem`), or the empty string.
pub open spec fn stem_or_empty(p: Seq<char>) -> Seq<char> {
    match spec_file_name(p) {
        Some(n) => name_stem(n),
        None => Seq::empty(),
    }
}

/// Which extraction `extract` performs on a file at `p`, if any: ZIP for
/// `.zip`, tar for `.tar`, tar.gz for `.gz` whose stem ends in `.tar`; other
/// files (a plain `.gz` among them) are left alone.
pub open spec fn spec_archive_kind(p: Seq<char>) -> Option<ArchiveKind> {
    let e = lower_extension(p);
    if e == "zip"@ {
        Some(ArchiveKind::Zip)
    } else if e == "gz"@ {
        let stem = stem_or_empty(p);
        if stem.len() >= 4 && stem.subrange(stem.len() - 4, stem.len() as int) == ".tar"@ {
            Some(ArchiveKind::TarGz)
        } else {
            None
        }
    } else if e == "tar"@ {
        Some(ArchiveKind::Tar)
    } else {
        None
    }
}

/// The stem of the path's file name, or the empty string.
fn stem_of(p: &str) -> (r: String)
    ensures
        r@ == stem_or_empty(p@),
{
    match file_stem(p) {
        Some(s) => s,
        None => String::new(),
    }
}

/// The extraction that a file at `file_path` calls for, if any.
pub fn archive_kind(file_path: &str) -> (r: Option<ArchiveKind>)
    ensures
        r == spec_archive_kind(file_path@),
{
    let e = lower_extension_of(file_path);
    if str_eq(e.as_str(), "zip") {
        Some(ArchiveKind::Zip)
    } else if str_eq(e.as_str(), "gz") {
        let stem = stem_of(file_path);
        if ends_with(stem.as_str(), ".tar") {
            proof {
                reveal_strlit(".tar");
            }
            Some(ArchiveKind::TarGz)
        } else {
            proof {
                reveal_strlit(".tar");
            }
            None
        }
    } else if str_eq(e.as_str(), "tar") {
        Some(ArchiveKind::Tar)
    } else {
        None
    }
}

/// The extensions that count as archives.
pub open spec fn archive_extension(e: Seq<char>) -> bool {
    e == "zip"@ || e == "tar"@ || e == "gz"@ || e == "rar"@ || e == "7z"@
}

/// Check if a file is a supported archive format.
pub fn is_archive(path: &str) -> (r: bool)
    ensures
        r == archive_extension(lower_extension(path@)),
        spec_archive_kind(path@) is Some ==> r,
{
    proof {
        lemma_extracted_files_are_archives(path@);
    }
    let e = lower_extension_of(path);
    let s = e.as_str();
    str_eq(s, "zip") || str_eq(s, "tar") || str_eq(s, "gz") || str_eq(s, "rar") || str_eq(s, "7z")
}

/// A file counts as an archive exactly when its lower-cased extension is
/// `zip`, `tar`, `gz`, `rar` or `7z`.
pub proof fn lemma_archive_extensions(p: Seq<char>)
    ensures
        archive_extension(lower_extension(p)) <==> ({
            let e = lower_extension(p);
            e == "zip"@ || e == "tar"@ || e == "gz"@ || e == "rar"@ || e == "7z"@
        }),
{
}

/// Every file that extraction unpacks (ZIP, tar, tar.gz) counts as an
/// archive.
pub proof fn lemma_extracted_files_are_archives(p: Seq<char>)
    ensures
        spec_archive_kind(p) is Some ==> archive_extension(lower_extension(p)),
        spec_archive_kind(p) == Some(ArchiveKind::Tar) ==> lower_extension(p) == "tar"@,
        spec_archive_kind(p) == Some(ArchiveKind::Zip) ==> lower_extension(p) == "zip"@,
        spec_archive_kind(p) == Some(ArchiveKind::TarGz) ==> lower_extension(p) == "gz"@,
{
}

} // verus!
