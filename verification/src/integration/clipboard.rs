//! Clipboard monitoring: which clipboard contents are taken as downloads.

use vstd::prelude::*;
use crate::regexes::{compile, regex_matches, regex_valid, CompiledRegex};
use crate::text::{owned, starts_with, str_eq};

verus! {

/// Whether `s` starts with `prefix`.
pub open spec fn has_prefix(s: Seq<char>, prefix: Seq<char>) -> bool {
    prefix.len() <= s.len() && s.subrange(0, prefix.len() as int) == prefix
}

/// Check if a string looks like a URL: it starts with `http://`, `https://`,
/// `ftp://` or `magnet:`.
pub fn is_url(s: &str) -> (r: bool)
    ensures
        r == (has_prefix(s@, "http://"@) || has_prefix(s@, "https://"@) || has_prefix(
            s@,
            "ftp://"@,
        ) || has_prefix(s@, "magnet:"@)),
{
    starts_with(s, "http://") || starts_with(s, "https://") || starts_with(s, "ftp://")
        || starts_with(s, "magnet:")
}

/// The patterns that compile, in order.
pub open spec fn valid_patterns(p: Seq<String>) -> Seq<Seq<char>>
    decreases p.len(),
{
    if p.len() == 0 {
        Seq::empty()
    } else if regex_valid(p.last()@) {
        valid_patterns(p.drop_last()).push(p.last()@)
    } else {
        valid_patterns(p.drop_last())
    }
}

/// The patterns of a list of compiled regexes.
pub open spec fn regex_views(r: Seq<CompiledRegex>) -> Seq<Seq<char>> {
    r.map_values(|c: CompiledRegex| c@)
}

/// Compiles the configured patterns, leaving out those that do not compile.
pub fn compile_patterns(patterns: &Vec<String>) -> (r: Vec<CompiledRegex>)
    ensures
        regex_views(r@) == valid_patterns(patterns@),
{
    let mut r: Vec<CompiledRegex> = Vec::new();
    let n = patterns.len();
    for i in 0..n
        invariant
            n == patterns@.len(),
            regex_views(r@) == valid_patterns(patterns@.take(i as int)),
    {
        let ghost before = r@;
        assert(patterns@.take(i + 1).drop_last() =~= patterns@.take(i as int));
        match compile(patterns[i].as_str()) {
            Ok(c) => {
                r.push(c);
                assert(regex_views(r@) =~= regex_views(before).push(patterns@[i as int]@));
            },
            Err(_) => {},
        }
    }
    assert(patterns@.take(n as int) =~= patterns@);
    r
}

/// Whether some pattern matches `text`.
pub open spec fn any_matches(pats: Seq<Seq<char>>, text: Seq<char>) -> bool {
    exists|i: int| 0 <= i < pats.len() && regex_matches(#[trigger] pats[i], text)
}

/// The clipboard monitor's state: its compiled patterns and the content it
/// saw last.
pub struct ClipboardMonitor {
    regexes: Vec<CompiledRegex>,
    last_content: String,
}

/// What a clipboard monitor holds.
pub struct MonitorView {
    pub patterns: Seq<Seq<char>>,
    pub last_content: Seq<char>,
}

impl View for ClipboardMonitor {
    type V = MonitorView;

    closed spec fn view(&self) -> MonitorView {
        MonitorView { patterns: regex_views(self.regexes@), last_content: self.last_content@ }
    }
}

impl ClipboardMonitor {
    /// A monitor for the configured patterns (those that compile), having
    /// seen nothing yet. `None` where no pattern compiles: then there is
    /// nothing to monitor.
    pub fn new(patterns: &Vec<String>) -> (r: Option<ClipboardMonitor>)
        ensures
            valid_patterns(patterns@).len() == 0 <==> r is None,
            r matches Some(m) ==> m@.patterns == valid_patterns(patterns@) && m@.last_content.len()
                == 0,
    {
        let regexes = compile_patterns(patterns);
        if regexes.len() == 0 {
            return None;
        }
        Some(ClipboardMonitor { regexes, last_content: String::new() })
    }

    /// The clipboard now holds `content`: where it is the content seen last,
    /// nothing happens; otherwise it is remembered, and returned as a URL to
    /// download where some pattern matches it.
    pub fn observe(&mut self, content: String) -> (r: Option<String>)
        ensures
            final(self)@.patterns == old(self)@.patterns,
            final(self)@.last_content == content@,
            content@ == old(self)@.last_content ==> r is None,
            content@ != old(self)@.last_content ==> (r is Some <==> any_matches(
                old(self)@.patterns,
                content@,
            )),
            r matches Some(u) ==> u@ == content@,
    {
        if str_eq(content.as_str(), self.last_content.as_str()) {
            return None;
        }
        self.last_content = owned(content.as_str());
        let n = self.regexes.len();
        for i in 0..n
            invariant
                n == self.regexes@.len(),
                self@.patterns == old(self)@.patterns,
                self@.last_content == content@,
                content@ != old(self)@.last_content,
                forall|j: int| 0 <= j < i ==> !regex_matches(#[trigger] self@.patterns[j], content@),
        {
            if self.regexes[i].is_match(content.as_str()) {
                assert(self@.patterns[i as int] == self.regexes@[i as int]@);
                return Some(content);
            }
        }
        None
    }
}

} // verus!
