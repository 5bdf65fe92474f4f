//! Regular expressions, compiled and matched by the `regex` crate.

use vstd::prelude::*;
use crate::text::owned;

verus! {

#[verifier::external_type_specification]
#[verifier::external_body]
pub struct ExRegex(regex::Regex);

#[verifier::external_type_specification]
#[verifier::external_body]
pub struct ExRegexError(regex::Error);

/// Whether `regex::Regex::new` accepts `pattern`.
pub uninterp spec fn regex_valid(pattern: Seq<char>) -> bool;

/// What `is_match` answers, for a regex compiled from `pattern`, on `text`.
pub uninterp spec fn regex_matches(pattern: Seq<char>, text: Seq<char>) -> bool;

/// What `captures_iter`, for a regex compiled from `pattern`, yields on
/// `text`: for each match in order, the text of its first group, where that
/// group took part.
pub uninterp spec fn regex_group1_captures(pattern: Seq<char>, text: Seq<char>) -> Seq<
    Option<Seq<char>>,
>;

/// The characters of each present string of a list of optional strings.
pub open spec fn opt_views(s: Seq<Option<String>>) -> Seq<Option<Seq<char>>> {
    s.map_values(
        |o: Option<String>|
            match o {
                Some(x) => Some(x@),
                None => None,
            },
    )
}

/// `regex::Regex::new(pattern)`: succeeds exactly for the patterns named
/// valid by `regex_valid`.
#[verifier::external_body]
fn regex_new(pattern: &str) -> (r: Result<regex::Regex, regex::Error>)
    ensures
        r is Ok <==> regex_valid(pattern@),
{
    regex::Regex::new(pattern)
}

/// A pattern that `regex::Regex::new` refused.
#[derive(Debug)]
pub struct PatternError {
    /// The refused pattern.
    pub pattern: String,
}

/// A compiled regular expression, kept with the pattern it was compiled from.
/// Values are made only by `compile`, so the regex is always the one that its
/// pattern compiles to.
pub struct CompiledRegex {
    re: regex::Regex,
    source: String,
}

impl View for CompiledRegex {
    type V = Seq<char>;

    /// The pattern the regex was compiled from.
    closed spec fn view(&self) -> Seq<char> {
        self.source@
    }
}

/// Compiles `pattern`.
pub fn compile(pattern: &str) -> (r: Result<CompiledRegex, PatternError>)
    ensures
        r is Ok <==> regex_valid(pattern@),
        r matches Ok(c) ==> c@ == pattern@,
        r matches Err(e) ==> e.pattern@ == pattern@,
{
    match regex_new(pattern) {
        Ok(re) => Ok(CompiledRegex { re, source: owned(pattern) }),
        Err(_) => Err(PatternError { pattern: owned(pattern) }),
    }
}

impl CompiledRegex {
    /// `regex::Regex::is_match`: whether the regex matches somewhere in `text`.
    /// The answer is named by `regex_matches` over the pattern this value was
    /// compiled from.
    #[verifier::external_body]
    pub(crate) fn is_match(&self, text: &str) -> (r: bool)
        ensures
            r == regex_matches(self@, text@),
    {
        self.re.is_match(text)
    }

    /// `regex::Regex::captures_iter`, each match converted to the text of its
    /// first group (`None` where the group did not take part). The result is
    /// named by `regex_group1_captures` over the pattern this value was
    /// compiled from.
    #[verifier::external_body]
    pub(crate) fn captures_group1(&self, text: &str) -> (r: Vec<Option<String>>)
        ensures
            opt_views(r@) == regex_group1_captures(self@, text@),
    {
        self.re.captures_iter(text).map(|c| c.get(1).map(|m| m.as_str().to_string())).collect()
    }
}

} // verus!
