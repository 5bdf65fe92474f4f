//! The aria2 bridge: the decisions taken around the aria2c daemon, its JSON-RPC
//! interface and its event stream.

pub mod codec;
pub mod daemon;
pub mod events;
pub mod methods;
pub mod rpc;
pub mod session;
pub mod supervisor;
pub mod types;

pub use daemon::Daemon;
pub use events::{Aria2Event, EventHandler};
pub use session::SessionManager;
pub use supervisor::{Aria2Supervisor, Delay, RestartPolicy, SupervisorState};
pub use types::{
    AddUriOptions, BittorrentInfo, BittorrentMetaInfo, DownloadFile, DownloadState, DownloadStatus,
    FileUri,
};
