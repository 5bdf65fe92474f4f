//! Organization rules.

use vstd::prelude::*;
use crate::paths::{file_name, spec_file_name};
use crate::regexes::{compile, regex_matches, regex_valid};
use super::{list_has_lower, lists_lower, lower_extension, lower_extension_of};

verus! {

/// A rule for organizing files.
#[derive(Debug, Clone)]
pub struct Rule {
    /// Rule name.
    pub name: String,
    /// File extensions to match.
    pub extensions: Vec<String>,
    /// Regex pattern to match filename.
    pub pattern: Option<String>,
    /// Minimum file size in bytes.
    pub min_size: Option<u64>,
    /// Maximum file size in bytes.
    pub max_size: Option<u64>,
    /// Destination directory (relative to download_dir).
    pub destination: String,
    /// Whether to create subdirectories by date.
    pub date_subdirs: bool,
}

/// The file name of a path, or the empty string where it has none.
pub open spec fn name_or_empty(p: Seq<char>) -> Seq<char> {
    match spec_file_name(p) {
        Some(n) => n,
        None => Seq::empty(),
    }
}

/// Whether a file at `path` of `size` bytes matches the rule: its lower-cased
/// extension is listed (where the rule lists any), its file name matches the
/// pattern (where the rule has one that compiles; one that does not compile
/// is ignored), and its size is within the bounds that are set.
pub open spec fn spec_rule_matches(r: Rule, path: Seq<char>, size: u64) -> bool {
    &&& (r.extensions@.len() == 0 || lists_lower(r.extensions@, lower_extension(path)))
    &&& match r.pattern {
        Some(p) => !regex_valid(p@) || regex_matches(p@, name_or_empty(path)),
        None => true,
    }
    &&& match r.min_size {
        Some(min) => size >= min,
        None => true,
    }
    &&& match r.max_size {
        Some(max) => size <= max,
        None => true,
    }
}

impl Rule {
    /// Check if a file matches this rule.
    pub fn matches(&self, path: &str, size: u64) -> (r: bool)
        ensures
            r == spec_rule_matches(*self, path@, size),
    {
        if self.extensions.len() > 0 {
            let ext = lower_extension_of(path);
            if !list_has_lower(&self.extensions, ext.as_str()) {
                return false;
            }
        }
        match &self.pattern {
            Some(pattern) => {
                let name = match file_name(path) {
                    Some(n) => n,
                    None => String::new(),
                };
                match compile(pattern.as_str()) {
                    Ok(re) => {
                        if !re.is_match(name.as_str()) {
                            return false;
                        }
                    },
                    Err(_) => {},
                }
            },
            None => {},
        }
        match self.min_size {
            Some(min) => {
                if size < min {
                    return false;
                }
            },
            None => {},
        }
        match self.max_size {
            Some(max) => {
                if size > max {
                    return false;
                }
            },
            None => {},
        }
        true
    }
}

/// A rule without extensions, pattern or bounds matches every file.
pub proof fn lemma_unconstrained_rule_matches_all(r: Rule, path: Seq<char>, size: u64)
    requires
        r.extensions@.len() == 0,
        r.pattern is None,
        r.min_size is None,
        r.max_size is None,
    ensures
        spec_rule_matches(r, path, size),
{
}

/// Where both bounds are set and the minimum exceeds the maximum, the rule
/// matches no file.
pub proof fn lemma_crossed_bounds_match_nothing(r: Rule, path: Seq<char>, size: u64)
    requires
        r.min_size matches Some(min) && r.max_size matches Some(max) && min > max,
    ensures
        !spec_rule_matches(r, path, size),
{
}

} // verus!
