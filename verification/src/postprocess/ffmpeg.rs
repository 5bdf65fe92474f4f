//! FFmpeg bridge: which files are merged, and the command lines that merge,
//! remux, extract audio and probe media.

use vstd::prelude::*;
use crate::config::Config;
use crate::paths::{spec_with_extension, with_extension};
use crate::text::{owned, str_eq, views};
use super::{lower_extension, lower_extension_of};

verus! {

/// The output path to which `merge_if_needed` merges a file at `p`: HLS and
/// DASH manifests (`.m3u8`, `.mpd`, compared lower-cased) go to the same path
/// with the extension `mp4`; other files are not merged.
pub open spec fn spec_merge_target(p: Seq<char>) -> Option<Seq<char>> {
    let e = lower_extension(p);
    if e == "m3u8"@ || e == "mpd"@ {
        Some(spec_with_extension(p, "mp4"@))
    } else {
        None
    }
}

/// Merge media if needed (HLS/DASH): the output path to merge into, if any.
pub fn merge_if_needed(file_path: &str) -> (r: Option<String>)
    ensures
        match spec_merge_target(file_path@) {
            Some(t) => r matches Some(s) && s@ == t,
            None => r is None,
        },
{
    let e = lower_extension_of(file_path);
    if !str_eq(e.as_str(), "m3u8") && !str_eq(e.as_str(), "mpd") {
        return None;
    }
    Some(with_extension(file_path, "mp4"))
}

/// The FFmpeg binary: the configured path, or `ffmpeg` where none is set.
pub fn ffmpeg_binary(config: &Config) -> (r: String)
    ensures
        r@ == (if config.postprocess.ffmpeg_path@.len() == 0 {
            "ffmpeg"@
        } else {
            config.postprocess.ffmpeg_path@
        }),
{
    if config.postprocess.ffmpeg_path.as_str().is_empty() {
        owned("ffmpeg")
    } else {
        owned(config.postprocess.ffmpeg_path.as_str())
    }
}

fn list_of(items: Vec<&str>) -> (r: Vec<String>)
    ensures
        views(r@) == items@.map_values(|s: &str| s@),
{
    let mut r: Vec<String> = Vec::new();
    let n = items.len();
    for i in 0..n
        invariant
            n == items@.len(),
            r@.len() == i,
            forall|j: int| 0 <= j < i ==> #[trigger] r@[j]@ == items@[j]@,
    {
        r.push(owned(items[i]));
    }
    assert(views(r@) =~= items@.map_values(|s: &str| s@));
    r
}

/// The arguments of FFmpeg for merging/remuxing: copy all streams from
/// `input` to `output`, overwriting it.
pub fn merge_args(input: &str, output: &str) -> (r: Vec<String>)
    ensures
        views(r@) == seq!["-i"@, input@, "-c"@, "copy"@, "-y"@, output@],
{
    let r = list_of(vec!["-i", input, "-c", "copy", "-y", output]);
    assert(views(r@) =~= seq!["-i"@, input@, "-c"@, "copy"@, "-y"@, output@]);
    r
}

/// The arguments of FFmpeg for extracting audio: drop the video, copy the
/// audio stream from `input` to `output`, overwriting it.
pub fn extract_audio_args(input: &str, output: &str) -> (r: Vec<String>)
    ensures
        views(r@) == seq!["-i"@, input@, "-vn"@, "-acodec"@, "copy"@, "-y"@, output@],
{
    let r = list_of(vec!["-i", input, "-vn", "-acodec", "copy", "-y", output]);
    assert(views(r@) =~= seq!["-i"@, input@, "-vn"@, "-acodec"@, "copy"@, "-y"@, output@]);
    r
}

/// The arguments of ffprobe for reading a file's format and streams as JSON.
pub fn probe_args(file_path: &str) -> (r: Vec<String>)
    ensures
        views(r@) == seq![
            "-v"@,
            "quiet"@,
            "-print_format"@,
            "json"@,
            "-show_format"@,
            "-show_streams"@,
            file_path@,
        ],
{
    let r = list_of(
        vec!["-v", "quiet", "-print_format", "json", "-show_format", "-show_streams", file_path],
    );
    assert(views(r@) =~= seq![
        "-v"@,
        "quiet"@,
        "-print_format"@,
        "json"@,
        "-show_format"@,
        "-show_streams"@,
        file_path@,
    ]);
    r
}

/// Media information from ffprobe.
#[derive(Debug)]
pub struct MediaInfo {
    pub format: Option<FormatInfo>,
    pub streams: Option<Vec<StreamInfo>>,
}

#[derive(Debug)]
pub struct FormatInfo {
    pub filename: Option<String>,
    pub format_name: Option<String>,
    pub duration: Option<String>,
    pub size: Option<String>,
    pub bit_rate: Option<String>,
}

#[derive(Debug)]
pub struct StreamInfo {
    pub index: i32,
    pub codec_name: Option<String>,
    pub codec_type: Option<String>,
    pub width: Option<i32>,
    pub height: Option<i32>,
    pub sample_rate: Option<String>,
    pub channels: Option<i32>,
}

} // verus!
