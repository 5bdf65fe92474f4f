//! Message types for browser extension communication.

use vstd::prelude::*;
use crate::text::str_concat;

verus! {

/// Messages received from the browser extension.
#[derive(Debug)]
pub enum Message {
    /// Ping to check if host is alive.
    Ping,
    /// Request to add a download.
    AddDownload {
        url: String,
        filename: Option<String>,
        headers: Vec<Header>,
        cookies: Option<String>,
        referer: Option<String>,
    },
    /// Request current download status.
    GetStatus,
    /// Request configuration.
    GetConfig,
}

/// HTTP header.
#[derive(Debug, Clone)]
pub struct Header {
    pub name: String,
    pub value: String,
}

impl Header {
    /// Format as HTTP header string: `name: value`.
    pub fn to_header_string(&self) -> (r: String)
        ensures
            r@ == self.name@ + ": "@ + self.value@,
    {
        let a = str_concat(self.name.as_str(), ": ");
        str_concat(a.as_str(), self.value.as_str())
    }
}

} // verus!
