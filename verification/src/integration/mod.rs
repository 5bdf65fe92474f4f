//! Integration: browser extension messages, clipboard monitoring, URL
//! patterns and media detection.

pub mod clipboard;
pub mod messaging;
pub mod native_host;
pub mod patterns;
pub mod sniffer;
