//! Shared types for aria2 communication.

use vstd::prelude::*;
use crate::numeric::{parse_u64, spec_parse_u64};

verus! {

/// Options for aria2.addUri. The extra options are kept in order, by name.
#[derive(Debug)]
pub struct AddUriOptions {
    pub dir: Option<String>,
    pub out: Option<String>,
    pub header: Option<Vec<String>>,
    pub referer: Option<String>,
    pub user_agent: Option<String>,
    pub max_connections: Option<u32>,
    pub split: Option<u32>,
    pub max_download_limit: Option<String>,
    pub extra: Vec<(String, String)>,
}

impl AddUriOptions {
    /// Whether no option is set.
    pub open spec fn is_empty(self) -> bool {
        &&& self.dir is None
        &&& self.out is None
        &&& self.header is None
        &&& self.referer is None
        &&& self.user_agent is None
        &&& self.max_connections is None
        &&& self.split is None
        &&& self.max_download_limit is None
        &&& self.extra@.len() == 0
    }
}

impl Default for AddUriOptions {
    fn default() -> (o: AddUriOptions)
        ensures
            o.is_empty(),
    {
        AddUriOptions {
            dir: None,
            out: None,
            header: None,
            referer: None,
            user_agent: None,
            max_connections: None,
            split: None,
            max_download_limit: None,
            extra: Vec::new(),
        }
    }
}

/// A count that aria2 reports as text, read as a number; text that is not a
/// `u64` counts as zero.
pub open spec fn count_of(s: Seq<char>) -> u64 {
    match spec_parse_u64(s) {
        Some(v) => v,
        None => 0,
    }
}

/// Download status returned by aria2.tellStatus.
#[derive(Debug, Clone)]
pub struct DownloadStatus {
    pub gid: String,
    pub status: DownloadState,
    pub total_length: String,
    pub completed_length: String,
    pub upload_length: String,
    pub download_speed: String,
    pub upload_speed: String,
    pub connections: String,
    pub error_code: Option<String>,
    pub error_message: Option<String>,
    pub files: Vec<DownloadFile>,
    pub dir: String,
    pub bittorrent: Option<BittorrentInfo>,
}

impl DownloadStatus {
    /// Get total length as u64.
    pub fn total_bytes(&self) -> (r: u64)
        ensures
            r == count_of(self.total_length@),
    {
        match parse_u64(self.total_length.as_str()) {
            Some(v) => v,
            None => 0,
        }
    }

    /// Get completed length as u64.
    pub fn completed_bytes(&self) -> (r: u64)
        ensures
            r == count_of(self.completed_length@),
    {
        match parse_u64(self.completed_length.as_str()) {
            Some(v) => v,
            None => 0,
        }
    }

    /// Get download speed as u64.
    pub fn speed(&self) -> (r: u64)
        ensures
            r == count_of(self.download_speed@),
    {
        match parse_u64(self.download_speed.as_str()) {
            Some(v) => v,
            None => 0,
        }
    }
}

/// Download state enum.
#[derive(Debug, Clone, Copy, PartialEq, Eq, Structural)]
pub enum DownloadState {
    Active,
    Waiting,
    Paused,
    Error,
    Complete,
    Removed,
}

/// File information within a download.
#[derive(Debug, Clone)]
pub struct DownloadFile {
    pub index: String,
    pub path: String,
    pub length: String,
    pub completed_length: String,
    pub selected: String,
    pub uris: Vec<FileUri>,
}

/// URI information for a file.
#[derive(Debug, Clone)]
pub struct FileUri {
    pub uri: String,
    pub status: String,
}

/// BitTorrent-specific information.
#[derive(Debug, Clone)]
pub struct BittorrentInfo {
    pub announce_list: Option<Vec<Vec<String>>>,
    pub comment: Option<String>,
    pub creation_date: Option<u64>,
    pub mode: Option<String>,
    pub info: Option<BittorrentMetaInfo>,
}

/// BitTorrent metadata info.
#[derive(Debug, Clone)]
pub struct BittorrentMetaInfo {
    pub name: Option<String>,
}

} // verus!
