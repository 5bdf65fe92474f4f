//! The names of aria2's JSON-RPC methods.

use vstd::prelude::*;

verus! {

pub const ADD_URI: &'static str = "aria2.addUri";

pub const ADD_TORRENT: &'static str = "aria2.addTorrent";

pub const ADD_METALINK: &'static str = "aria2.addMetalink";

pub const REMOVE: &'static str = "aria2.remove";

pub const FORCE_REMOVE: &'static str = "aria2.forceRemove";

pub const PAUSE: &'static str = "aria2.pause";

pub const PAUSE_ALL: &'static str = "aria2.pauseAll";

pub const FORCE_PAUSE: &'static str = "aria2.forcePause";

pub const FORCE_PAUSE_ALL: &'static str = "aria2.forcePauseAll";

pub const UNPAUSE: &'static str = "aria2.unpause";

pub const UNPAUSE_ALL: &'static str = "aria2.unpauseAll";

pub const TELL_STATUS: &'static str = "aria2.tellStatus";

pub const GET_URIS: &'static str = "aria2.getUris";

pub const GET_FILES: &'static str = "aria2.getFiles";

pub const GET_PEERS: &'static str = "aria2.getPeers";

pub const GET_SERVERS: &'static str = "aria2.getServers";

pub const TELL_ACTIVE: &'static str = "aria2.tellActive";

pub const TELL_WAITING: &'static str = "aria2.tellWaiting";

pub const TELL_STOPPED: &'static str = "aria2.tellStopped";

pub const CHANGE_POSITION: &'static str = "aria2.changePosition";

pub const CHANGE_URI: &'static str = "aria2.changeUri";

pub const GET_OPTION: &'static str = "aria2.getOption";

pub const CHANGE_OPTION: &'static str = "aria2.changeOption";

pub const GET_GLOBAL_OPTION: &'static str = "aria2.getGlobalOption";

pub const CHANGE_GLOBAL_OPTION: &'static str = "aria2.changeGlobalOption";

pub const GET_GLOBAL_STAT: &'static str = "aria2.getGlobalStat";

pub const PURGE_DOWNLOAD_RESULT: &'static str = "aria2.purgeDownloadResult";

pub const REMOVE_DOWNLOAD_RESULT: &'static str = "aria2.removeDownloadResult";

pub const GET_VERSION: &'static str = "aria2.getVersion";

pub const GET_SESSION_INFO: &'static str = "aria2.getSessionInfo";

pub const SHUTDOWN: &'static str = "aria2.shutdown";

pub const FORCE_SHUTDOWN: &'static str = "aria2.forceShutdown";

pub const SAVE_SESSION: &'static str = "aria2.saveSession";

pub const MULTICALL: &'static str = "system.multicall";

pub const LIST_METHODS: &'static str = "system.listMethods";

pub const LIST_NOTIFICATIONS: &'static str = "system.listNotifications";

} // verus!
