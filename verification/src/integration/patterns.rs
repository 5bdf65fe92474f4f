//! URL pattern matching utilities.

use vstd::prelude::*;
use crate::regexes::{compile, regex_matches, regex_valid, CompiledRegex, PatternError};

verus! {

/// A compiled URL pattern for matching.
pub struct UrlPattern {
    regex: CompiledRegex,
    category: Option<String>,
}

/// What a URL pattern holds: its regex pattern and its category.
pub type UrlPatternView = (Seq<char>, Option<Seq<char>>);

impl View for UrlPattern {
    type V = UrlPatternView;

    closed spec fn view(&self) -> UrlPatternView {
        (
            self.regex@,
            match self.category {
                Some(c) => Some(c@),
                None => None,
            },
        )
    }
}

impl UrlPattern {
    /// Create a new URL pattern; fails where the pattern does not compile.
    pub fn new(pattern: &str, category: Option<String>) -> (r: Result<UrlPattern, PatternError>)
        ensures
            r is Ok <==> regex_valid(pattern@),
            r matches Ok(p) ==> p@.0 == pattern@ && p@.1 == (match category {
                Some(c) => Some(c@),
                None => None,
            }),
    {
        match compile(pattern) {
            Ok(regex) => Ok(UrlPattern { regex, category }),
            Err(e) => Err(e),
        }
    }

    /// Check if a URL matches this pattern.
    pub fn matches(&self, url: &str) -> (r: bool)
        ensures
            r == regex_matches(self@.0, url@),
    {
        self.regex.is_match(url)
    }

    /// Get the category for this pattern.
    pub fn category(&self) -> (r: Option<&str>)
        ensures
            match r {
                Some(c) => self@.1 == Some(c@),
                None => self@.1 is None,
            },
    {
        match &self.category {
            Some(c) => Some(c.as_str()),
            None => None,
        }
    }
}

/// The index of the first pattern that matches `url`.
pub open spec fn first_match(pats: Seq<UrlPatternView>, url: Seq<char>, i: int) -> bool {
    &&& 0 <= i < pats.len()
    &&& regex_matches(pats[i].0, url)
    &&& forall|j: int| 0 <= j < i ==> !regex_matches(#[trigger] pats[j].0, url)
}

/// Whether no pattern matches `url`.
pub open spec fn none_match(pats: Seq<UrlPatternView>, url: Seq<char>) -> bool {
    forall|j: int| 0 <= j < pats.len() ==> !regex_matches(#[trigger] pats[j].0, url)
}

/// Collection of URL patterns, tried in the order they were added.
pub struct PatternMatcher {
    patterns: Vec<UrlPattern>,
}

impl View for PatternMatcher {
    type V = Seq<UrlPatternView>;

    closed spec fn view(&self) -> Seq<UrlPatternView> {
        self.patterns@.map_values(|p: UrlPattern| p@)
    }
}

impl PatternMatcher {
    /// Create a new pattern matcher.
    pub fn new() -> (m: PatternMatcher)
        ensures
            m@.len() == 0,
    {
        PatternMatcher { patterns: Vec::new() }
    }

    /// Add a pattern.
    pub fn add(&mut self, pattern: UrlPattern)
        ensures
            final(self)@ == old(self)@.push(pattern@),
    {
        self.patterns.push(pattern);
        assert(self@ =~= old(self)@.push(pattern@));
    }

    fn first_index(&self, url: &str) -> (r: Option<usize>)
        ensures
            match r {
                Some(i) => first_match(self@, url@, i as int),
                None => none_match(self@, url@),
            },
    {
        let n = self.patterns.len();
        for i in 0..n
            invariant
                n == self.patterns@.len(),
                forall|j: int| 0 <= j < i ==> !regex_matches(#[trigger] self@[j].0, url@),
        {
            if self.patterns[i].matches(url) {
                return Some(i);
            }
        }
        None
    }

    /// Find the first matching pattern for a URL.
    pub fn find_match(&self, url: &str) -> (r: Option<&UrlPattern>)
        ensures
            match r {
                Some(p) => exists|i: int| first_match(self@, url@, i) && #[trigger] self@[i] == p@,
                None => none_match(self@, url@),
            },
    {
        match self.first_index(url) {
            Some(i) => Some(&self.patterns[i]),
            None => None,
        }
    }

    /// Check if any pattern matches the URL.
    pub fn matches(&self, url: &str) -> (r: bool)
        ensures
            r == !none_match(self@, url@),
    {
        self.first_index(url).is_some()
    }

    /// Get category for a URL based on matching patterns: the category of the
    /// first pattern that matches, if it has one.
    pub fn categorize(&self, url: &str) -> (r: Option<&str>)
        ensures
            match r {
                Some(c) => exists|i: int|
                    first_match(self@, url@, i) && #[trigger] self@[i].1 == Some(c@),
                None => none_match(self@, url@) || exists|i: int|
                    first_match(self@, url@, i) && (#[trigger] self@[i].1) is None,
            },
    {
        match self.find_match(url) {
            Some(p) => p.category(),
            None => None,
        }
    }
}

impl Default for PatternMatcher {
    fn default() -> (m: PatternMatcher)
        ensures
            m@.len() == 0,
    {
        PatternMatcher::new()
    }
}

/// A URL matches some pattern exactly when some pattern is the first to
/// match it, and then that pattern's category is the category of the URL.
pub proof fn lemma_first_match_exists(pats: Seq<UrlPatternView>, url: Seq<char>)
    ensures
        !none_match(pats, url) ==> exists|i: int| first_match(pats, url, i),
{
    if !none_match(pats, url) {
        let k = choose|k: int| 0 <= k < pats.len() && regex_matches(#[trigger] pats[k].0, url);
        lemma_least_match(pats, url, k);
    }
}

proof fn lemma_least_match(pats: Seq<UrlPatternView>, url: Seq<char>, k: int)
    requires
        0 <= k < pats.len(),
        regex_matches(pats[k].0, url),
    ensures
        exists|i: int| first_match(pats, url, i),
    decreases k,
{
    if forall|j: int| 0 <= j < k ==> !regex_matches(#[trigger] pats[j].0, url) {
        assert(first_match(pats, url, k));
    } else {
        let j = choose|j: int| 0 <= j < k && regex_matches(#[trigger] pats[j].0, url);
        lemma_least_match(pats, url, j);
    }
}

/// At most one index is the first to match.
pub proof fn lemma_first_match_unique(pats: Seq<UrlPatternView>, url: Seq<char>, i: int, j: int)
    requires
        first_match(pats, url, i),
        first_match(pats, url, j),
    ensures
        i == j,
{
}

} // verus!
