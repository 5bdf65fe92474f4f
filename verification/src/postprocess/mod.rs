//! Post-processing: sorting files into category folders, extracting archives,
//! merging streamed media, and running hook scripts.

pub mod extractor;
pub mod ffmpeg;
pub mod hooks;
pub mod organizer;
pub mod rules;

use vstd::prelude::*;
use crate::config::Config;
use crate::paths::{extension, spec_extension};
use crate::queue::Job;
use crate::text::{clone_opt, owned, str_eq, to_lowercase, unicode_lowercase};

verus! {

/// The lower-cased extension of a path, or the empty string where it has none.
pub open spec fn lower_extension(p: Seq<char>) -> Seq<char> {
    match spec_extension(p) {
        Some(e) => unicode_lowercase(e),
        None => Seq::empty(),
    }
}

/// `path.extension().map(|e| e.to_lowercase()).unwrap_or_default()`.
pub fn lower_extension_of(p: &str) -> (r: String)
    ensures
        r@ == lower_extension(p@),
{
    match extension(p) {
        Some(e) => to_lowercase(e.as_str()),
        None => String::new(),
    }
}

/// Whether some entry of `list`, lower-cased, equals `x`.
pub open spec fn lists_lower(list: Seq<String>, x: Seq<char>) -> bool {
    exists|i: int| 0 <= i < list.len() && unicode_lowercase(#[trigger] list[i]@) == x
}

/// Whether some entry of `list`, lower-cased, equals `x`.
pub fn list_has_lower(list: &Vec<String>, x: &str) -> (r: bool)
    ensures
        r == lists_lower(list@, x@),
{
    let n = list.len();
    for i in 0..n
        invariant
            n == list@.len(),
            forall|j: int| 0 <= j < i ==> unicode_lowercase(#[trigger] list@[j]@) != x@,
    {
        let l = to_lowercase(list[i].as_str());
        if str_eq(l.as_str(), x) {
            return true;
        }
    }
    false
}

/// The steps that post-processing takes for a completed job.
#[derive(Debug)]
pub struct PostprocessPlan {
    /// The file the steps work on.
    pub output_path: String,
    /// Sort the file into its category folder.
    pub organize: bool,
    /// Extract the file if it is an archive.
    pub extract: bool,
    /// Merge the file with FFmpeg if it is an HLS/DASH manifest.
    pub merge: bool,
    /// The completion hook to run.
    pub hook: Option<String>,
}

/// Post-process a completed download: nothing where the job has no output
/// path; otherwise, on that path, the steps that the configuration enables,
/// in this order: organize, extract, merge, completion hook. (A failing step
/// is reported and the next one runs.)
pub fn process(job: &Job, config: &Config) -> (r: Option<PostprocessPlan>)
    ensures
        match job.output_path {
            None => r is None,
            Some(p) => r matches Some(plan) && plan.output_path@ == p@ && plan.organize
                == config.postprocess.auto_organize && plan.extract
                == config.postprocess.auto_extract && plan.merge == config.postprocess.merge_media
                && plan.hook == config.hooks.on_complete,
        },
{
    match &job.output_path {
        None => None,
        Some(p) => Some(
            PostprocessPlan {
                output_path: owned(p.as_str()),
                organize: config.postprocess.auto_organize,
                extract: config.postprocess.auto_extract,
                merge: config.postprocess.merge_media,
                hook: clone_opt(&config.hooks.on_complete),
            },
        ),
    }
}

} // verus!
