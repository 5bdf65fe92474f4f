//! Desktop notifications: what each notification says. Showing it is done
//! by the binary.

use vstd::prelude::*;
use crate::text::{owned, str_concat};

verus! {

/// A desktop notification: its summary, body, icon and how long it stays.
#[derive(Debug)]
pub struct Notice {
    pub summary: String,
    pub body: String,
    pub icon: String,
    pub timeout_ms: u32,
}

/// Whether `n` says `summary` and `body` with `icon` for `timeout_ms`.
pub open spec fn says(n: Notice, summary: Seq<char>, body: Seq<char>, icon: Seq<char>, timeout_ms: u32) -> bool {
    &&& n.summary@ == summary
    &&& n.body@ == body
    &&& n.icon@ == icon
    &&& n.timeout_ms == timeout_ms
}

/// A download complete notification: "<filename> has finished downloading",
/// shown for five seconds.
pub fn download_complete(filename: &str) -> (n: Notice)
    ensures
        says(n, "Download Complete"@, filename@ + " has finished downloading"@, "dialog-information"@, 5000),
{
    Notice {
        summary: owned("Download Complete"),
        body: str_concat(filename, " has finished downloading"),
        icon: owned("dialog-information"),
        timeout_ms: 5000,
    }
}

/// A download error notification: "<filename>: <error>", shown for ten
/// seconds.
pub fn download_error(filename: &str, error: &str) -> (n: Notice)
    ensures
        says(n, "Download Failed"@, filename@ + ": "@ + error@, "dialog-error"@, 10000),
{
    let head = str_concat(filename, ": ");
    Notice {
        summary: owned("Download Failed"),
        body: str_concat(head.as_str(), error),
        icon: owned("dialog-error"),
        timeout_ms: 10000,
    }
}

/// A queue empty notification, shown for five seconds.
pub fn queue_empty() -> (n: Notice)
    ensures
        says(n, "All Downloads Complete"@, "The download queue is now empty"@, "dialog-information"@, 5000),
{
    Notice {
        summary: owned("All Downloads Complete"),
        body: owned("The download queue is now empty"),
        icon: owned("dialog-information"),
        timeout_ms: 5000,
    }
}

/// A generic notification with the given title and body, shown for five
/// seconds.
pub fn notify(title: &str, body: &str) -> (n: Notice)
    ensures
        says(n, title@, body@, "dialog-information"@, 5000),
{
    Notice {
        summary: owned(title),
        body: owned(body),
        icon: owned("dialog-information"),
        timeout_ms: 5000,
    }
}

} // verus!
