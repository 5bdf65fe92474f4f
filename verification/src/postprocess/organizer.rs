//! File organizer: which category folder a file belongs in.

use vstd::prelude::*;
use crate::config::Config;
use crate::paths::{
    expand_tilde, file_name, join, same_components, same_path, spec_extension, spec_file_name,
    spec_join, tilde_expansion_of,
};
use crate::text::{owned, to_lowercase, unicode_lowercase};
use super::{list_has_lower, lists_lower, lower_extension, lower_extension_of};

verus! {

/// Whether `i` is the index of the first category, in the configuration's
/// order, that lists `ext` (compared lower-cased).
pub open spec fn is_first_category(cats: Seq<(String, Vec<String>)>, ext: Seq<char>, i: int) -> bool {
    &&& 0 <= i < cats.len()
    &&& lists_lower(cats[i].1@, ext)
    &&& forall|j: int| 0 <= j < i ==> !lists_lower(#[trigger] cats[j].1@, ext)
}

/// The index of the first category that lists `ext`.
fn find_category(cats: &Vec<(String, Vec<String>)>, ext: &str) -> (r: Option<usize>)
    ensures
        match r {
            Some(i) => is_first_category(cats@, ext@, i as int),
            None => forall|j: int| 0 <= j < cats@.len() ==> !lists_lower(#[trigger] cats@[j].1@, ext@),
        },
{
    let n = cats.len();
    for i in 0..n
        invariant
            n == cats@.len(),
            forall|j: int| 0 <= j < i ==> !lists_lower(#[trigger] cats@[j].1@, ext@),
    {
        if list_has_lower(&cats[i].1, ext) {
            return Some(i);
        }
    }
    None
}

/// Get the category for a file based on its extension: none where the path
/// has no extension, else the first category that lists the extension
/// (compared lower-cased).
pub fn get_category(path: &str, config: &Config) -> (r: Option<String>)
    ensures
        match spec_extension(path@) {
            None => r is None,
            Some(e) => match r {
                Some(c) => exists|i: int|
                    is_first_category(config.postprocess.categories@, unicode_lowercase(e), i)
                        && #[trigger] config.postprocess.categories@[i].0@ == c@,
                None => forall|j: int|
                    0 <= j < config.postprocess.categories@.len() ==> !lists_lower(
                        #[trigger] config.postprocess.categories@[j].1@,
                        unicode_lowercase(e),
                    ),
            },
        },
{
    let ext = match crate::paths::extension(path) {
        Some(e) => to_lowercase(e.as_str()),
        None => return None,
    };
    let cats = config.postprocess.categories.entries();
    match find_category(cats, ext.as_str()) {
        Some(i) => Some(owned(cats[i].0.as_str())),
        None => None,
    }
}

/// What `organize` does with a file that exists.
#[derive(Debug)]
pub enum OrganizeDecision {
    /// No category lists the file's extension: the file stays.
    NoCategory,
    /// A category matched but the path has no file name (the operation
    /// cannot go on: unwrapping the file name fails).
    NoFileName,
    /// The category folder is created; the file is already there.
    InPlace { dest_dir: String },
    /// The category folder is created and the file moved to `dest_path`.
    Move { dest_dir: String, dest_path: String },
}

/// What `organize` decides for the file at `file_path`, given the download
/// directory once `~` is expanded.
pub open spec fn spec_organize(
    file_path: Seq<char>,
    cats: Seq<(String, Vec<String>)>,
    download_dir: Seq<char>,
    d: OrganizeDecision,
) -> bool {
    let ext = lower_extension(file_path);
    match d {
        OrganizeDecision::NoCategory => forall|j: int|
            0 <= j < cats.len() ==> !lists_lower(#[trigger] cats[j].1@, ext),
        OrganizeDecision::NoFileName => (exists|i: int| is_first_category(cats, ext, i))
            && spec_file_name(file_path) is None,
        OrganizeDecision::InPlace { dest_dir } => exists|i: int|
            is_first_category(cats, ext, i) && #[trigger] dest_dir@ == spec_join(
                download_dir,
                cats[i].0@,
            ) && (spec_file_name(file_path) matches Some(n) && same_components(
                file_path,
                spec_join(dest_dir@, n),
            )),
        OrganizeDecision::Move { dest_dir, dest_path } => exists|i: int|
            is_first_category(cats, ext, i) && #[trigger] dest_dir@ == spec_join(
                download_dir,
                cats[i].0@,
            ) && (spec_file_name(file_path) matches Some(n) && dest_path@ == spec_join(
                dest_dir@,
                n,
            ) && !same_components(file_path, dest_path@)),
    }
}

/// Organize a file into the appropriate category folder, the download
/// directory given with `~` already expanded: the category is the first that
/// lists the file's lower-cased extension (the empty string where it has
/// none), and the destination is `<download_dir>/<category>/<file name>`.
pub fn organize_in(file_path: &str, config: &Config, download_dir: &str) -> (d: OrganizeDecision)
    ensures
        spec_organize(file_path@, config.postprocess.categories@, download_dir@, d),
{
    let ext = lower_extension_of(file_path);
    let cats = config.postprocess.categories.entries();
    let i = match find_category(cats, ext.as_str()) {
        Some(i) => i,
        None => return OrganizeDecision::NoCategory,
    };
    let dest_dir = join(download_dir, cats[i].0.as_str());
    let name = match file_name(file_path) {
        Some(n) => n,
        None => return OrganizeDecision::NoFileName,
    };
    let dest_path = join(dest_dir.as_str(), name.as_str());
    if same_path(file_path, dest_path.as_str()) {
        OrganizeDecision::InPlace { dest_dir }
    } else {
        OrganizeDecision::Move { dest_dir, dest_path }
    }
}

/// Organize a file into the appropriate category folder: as `organize_in`,
/// with the configured download directory after `~` expansion.
pub fn organize(file_path: &str, config: &Config) -> (d: OrganizeDecision)
    ensures
        exists|dir: Seq<char>|
            tilde_expansion_of(dir, config.general.download_dir@) && #[trigger] spec_organize(
                file_path@,
                config.postprocess.categories@,
                dir,
                d,
            ),
{
    let dir = expand_tilde(config.general.download_dir.as_str());
    organize_in(file_path, config, dir.as_str())
}

} // verus!
