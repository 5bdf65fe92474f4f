//! Media sniffer: detects HLS/DASH manifests and direct media URLs.

use vstd::prelude::*;
use crate::regexes::{
    compile, opt_views, regex_group1_captures, regex_matches, regex_valid, CompiledRegex,
    PatternError,
};
use crate::text::owned;

verus! {

/// The pattern of HLS manifest URLs.
pub open spec fn hls_pattern() -> Seq<char> {
    "\\.m3u8(\\?.*)?$"@
}

/// The pattern of DASH manifest URLs.
pub open spec fn dash_pattern() -> Seq<char> {
    "\\.mpd(\\?.*)?$"@
}

/// The pattern of direct media file URLs.
pub open spec fn direct_media_pattern() -> Seq<char> {
    "\\.(mp4|mkv|webm|avi|mov|mp3|flac|wav|aac)(\\?.*)?$"@
}

/// The pattern of `src`/`href` attribute values in HTML.
pub open spec fn link_pattern() -> Seq<char> {
    "(?:src|href)=[\"']([^\"']+)[\"']"@
}

/// Detected media type.
#[derive(Debug, Clone, Copy, PartialEq, Eq, Structural)]
pub enum MediaType {
    /// HLS manifest (.m3u8).
    Hls,
    /// DASH manifest (.mpd).
    Dash,
    /// Direct media file.
    Direct,
}

impl MediaType {
    /// Check if this type requires FFmpeg for processing.
    pub fn requires_ffmpeg(&self) -> (r: bool)
        ensures
            r == (*self == MediaType::Hls || *self == MediaType::Dash),
    {
        match self {
            MediaType::Hls | MediaType::Dash => true,
            MediaType::Direct => false,
        }
    }
}

/// The media type of a URL: HLS before DASH before direct media.
pub open spec fn spec_detect(url: Seq<char>) -> Option<MediaType> {
    if regex_matches(hls_pattern(), url) {
        Some(MediaType::Hls)
    } else if regex_matches(dash_pattern(), url) {
        Some(MediaType::Dash)
    } else if regex_matches(direct_media_pattern(), url) {
        Some(MediaType::Direct)
    } else {
        None
    }
}

/// The captured links that name media, in order.
pub open spec fn media_links(caps: Seq<Option<Seq<char>>>) -> Seq<Seq<char>>
    decreases caps.len(),
{
    if caps.len() == 0 {
        Seq::empty()
    } else {
        let rest = media_links(caps.drop_last());
        match caps.last() {
            Some(u) => if spec_detect(u) is Some {
                rest.push(u)
            } else {
                rest
            },
            None => rest,
        }
    }
}

/// Known media URL patterns.
pub struct MediaSniffer {
    hls_pattern: CompiledRegex,
    dash_pattern: CompiledRegex,
    direct_media_pattern: CompiledRegex,
}

impl MediaSniffer {
    /// Whether the sniffer holds the three media patterns.
    pub closed spec fn well_formed(&self) -> bool {
        &&& self.hls_pattern@ == hls_pattern()
        &&& self.dash_pattern@ == dash_pattern()
        &&& self.direct_media_pattern@ == direct_media_pattern()
    }

    /// Create a new media sniffer: fails where a media pattern does not
    /// compile.
    pub fn new() -> (r: Result<MediaSniffer, PatternError>)
        ensures
            r is Ok <==> (regex_valid(hls_pattern()) && regex_valid(dash_pattern())
                && regex_valid(direct_media_pattern())),
            r matches Ok(s) ==> s.well_formed(),
    {
        let hls = match compile("\\.m3u8(\\?.*)?$") {
            Ok(c) => c,
            Err(e) => return Err(e),
        };
        let dash = match compile("\\.mpd(\\?.*)?$") {
            Ok(c) => c,
            Err(e) => return Err(e),
        };
        let direct = match compile("\\.(mp4|mkv|webm|avi|mov|mp3|flac|wav|aac)(\\?.*)?$") {
            Ok(c) => c,
            Err(e) => return Err(e),
        };
        Ok(MediaSniffer { hls_pattern: hls, dash_pattern: dash, direct_media_pattern: direct })
    }

    /// Detect media type from URL.
    pub fn detect(&self, url: &str) -> (r: Option<MediaType>)
        requires
            self.well_formed(),
        ensures
            r == spec_detect(url@),
    {
        if self.hls_pattern.is_match(url) {
            Some(MediaType::Hls)
        } else if self.dash_pattern.is_match(url) {
            Some(MediaType::Dash)
        } else if self.direct_media_pattern.is_match(url) {
            Some(MediaType::Direct)
        } else {
            None
        }
    }

    /// Of the links captured in a page (the first group of each match of the
    /// link pattern), those that name media, in order.
    pub fn media_links_of(&self, caps: Vec<Option<String>>) -> (r: Vec<String>)
        requires
            self.well_formed(),
        ensures
            r@.map_values(|s: String| s@) == media_links(opt_views(caps@)),
    {
        let mut r: Vec<String> = Vec::new();
        let n = caps.len();
        for i in 0..n
            invariant
                n == caps@.len(),
                self.well_formed(),
                r@.map_values(|s: String| s@) == media_links(opt_views(caps@.take(i as int))),
        {
            let ghost before = r@.map_values(|s: String| s@);
            assert(opt_views(caps@.take(i + 1)).drop_last() =~= opt_views(caps@.take(i as int)));
            assert(opt_views(caps@.take(i + 1)).last() == opt_views(caps@)[i as int]);
            match &caps[i] {
                Some(u) => {
                    if self.detect(u.as_str()).is_some() {
                        r.push(owned(u.as_str()));
                        assert(r@.map_values(|s: String| s@) =~= before.push(u@));
                    }
                },
                None => {},
            }
        }
        assert(caps@.take(n as int) =~= caps@);
        r
    }

    /// The media links among the `src`/`href` values that `link` (the link
    /// pattern, compiled) captures in `html`.
    fn links_in(&self, link: &CompiledRegex, html: &str) -> (r: Vec<String>)
        requires
            self.well_formed(),
            link@ == link_pattern(),
        ensures
            r@.map_values(|s: String| s@) == media_links(
                regex_group1_captures(link_pattern(), html@),
            ),
    {
        let caps = link.captures_group1(html);
        self.media_links_of(caps)
    }

    /// Extract media URLs from HTML content: the `src`/`href` values that name
    /// media, in order.
    pub fn extract_from_html(&self, html: &str) -> (r: Vec<String>)
        requires
            self.well_formed(),
            regex_valid(link_pattern()),
        ensures
            r@.map_values(|s: String| s@) == media_links(
                regex_group1_captures(link_pattern(), html@),
            ),
    {
        match compile("(?:src|href)=[\"']([^\"']+)[\"']") {
            Ok(link) => self.links_in(&link, html),
            Err(_) => vstd::pervasive::unreached(),
        }
    }

    /// As `extract_from_html`, where the link pattern compiles; `None` where
    /// it does not.
    pub fn try_extract_from_html(&self, html: &str) -> (r: Option<Vec<String>>)
        requires
            self.well_formed(),
        ensures
            r is Some <==> regex_valid(link_pattern()),
            r matches Some(v) ==> v@.map_values(|s: String| s@) == media_links(
                regex_group1_captures(link_pattern(), html@),
            ),
    {
        if compile("(?:src|href)=[\"']([^\"']+)[\"']").is_err() {
            return None;
        }
        Some(self.extract_from_html(html))
    }
}

} // verus!
