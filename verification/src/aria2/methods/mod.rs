//! Values that aria2's JSON-RPC 2.0 methods return.

use vstd::prelude::*;

pub mod method;

verus! {

/// Position adjustment mode for changePosition.
#[derive(Debug, Clone, Copy, PartialEq, Eq, Structural)]
pub enum PositionMode {
    /// Set position relative to the beginning of the queue.
    PosSet,
    /// Set position relative to the current position.
    PosCur,
    /// Set position relative to the end of the queue.
    PosEnd,
}

impl PositionMode {
    /// The name by which aria2 knows the mode.
    pub fn wire_name(&self) -> (r: &'static str)
        ensures
            r@ == (match *self {
                PositionMode::PosSet => "POS_SET"@,
                PositionMode::PosCur => "POS_CUR"@,
                PositionMode::PosEnd => "POS_END"@,
            }),
    {
        match self {
            PositionMode::PosSet => "POS_SET",
            PositionMode::PosCur => "POS_CUR",
            PositionMode::PosEnd => "POS_END",
        }
    }
}

/// Global statistics response.
#[derive(Debug, Clone)]
pub struct GlobalStat {
    /// Overall download speed in bytes/sec.
    pub download_speed: String,
    /// Overall upload speed in bytes/sec.
    pub upload_speed: String,
    /// Number of active downloads.
    pub num_active: String,
    /// Number of waiting downloads.
    pub num_waiting: String,
    /// Number of stopped downloads.
    pub num_stopped: String,
    /// Number of stopped downloads in the current session.
    pub num_stopped_total: String,
}

/// Version information response.
#[derive(Debug, Clone)]
pub struct VersionInfo {
    /// aria2 version string.
    pub version: String,
    /// List of enabled features.
    pub enabled_features: Vec<String>,
}

/// Session information response.
#[derive(Debug, Clone)]
pub struct SessionInfo {
    /// Session ID.
    pub session_id: String,
}

/// URI status in a download.
#[derive(Debug, Clone)]
pub struct UriStatus {
    /// URI string.
    pub uri: String,
    /// Status: "used" or "waiting".
    pub status: String,
}

/// File information in a download.
#[derive(Debug, Clone)]
pub struct FileInfo {
    /// Index of the file (1-based).
    pub index: String,
    /// File path.
    pub path: String,
    /// File size in bytes.
    pub length: String,
    /// Completed length in bytes.
    pub completed_length: String,
    /// true if this file is selected for download.
    pub selected: String,
    /// List of URIs for this file.
    pub uris: Vec<UriStatus>,
}

/// Server information for a download.
#[derive(Debug, Clone)]
pub struct ServerInfo {
    /// Index of the file (1-based).
    pub index: String,
    /// List of servers.
    pub servers: Vec<Server>,
}

/// Individual server details.
#[derive(Debug, Clone)]
pub struct Server {
    /// URI of the server.
    pub uri: String,
    /// Current download speed from this server.
    pub current_uri: String,
    /// Download speed in bytes/sec.
    pub download_speed: String,
}

} // verus!
