//! aria2 event types, and what each does to a job.

use vstd::prelude::*;
use crate::queue::JobStatus;
use super::session::SessionManager;
use crate::text::str_eq;

verus! {

/// Events received from aria2 via WebSocket.
#[derive(Debug, Clone)]
pub enum Aria2Event {
    DownloadStart(String),
    DownloadPause(String),
    DownloadStop(String),
    DownloadComplete(String),
    DownloadError(String),
    BtDownloadComplete(String),
}

/// The GID that an event is about.
pub open spec fn event_gid(e: Aria2Event) -> Seq<char> {
    match e {
        Aria2Event::DownloadStart(g) => g@,
        Aria2Event::DownloadPause(g) => g@,
        Aria2Event::DownloadStop(g) => g@,
        Aria2Event::DownloadComplete(g) => g@,
        Aria2Event::DownloadError(g) => g@,
        Aria2Event::BtDownloadComplete(g) => g@,
    }
}

/// The status that an event puts its job in.
pub open spec fn event_status(e: Aria2Event) -> JobStatus {
    match e {
        Aria2Event::DownloadStart(_) => JobStatus::Active,
        Aria2Event::DownloadPause(_) => JobStatus::Paused,
        Aria2Event::DownloadStop(_) => JobStatus::Stopped,
        Aria2Event::DownloadComplete(_) => JobStatus::Complete,
        Aria2Event::BtDownloadComplete(_) => JobStatus::Complete,
        Aria2Event::DownloadError(_) => JobStatus::Failed,
    }
}

/// The event that a notification with this method name announces about `gid`.
pub open spec fn spec_event_for(method: Seq<char>, gid: Seq<char>) -> Option<(int, Seq<char>)> {
    if method == "aria2.onDownloadStart"@ {
        Some((0, gid))
    } else if method == "aria2.onDownloadPause"@ {
        Some((1, gid))
    } else if method == "aria2.onDownloadStop"@ {
        Some((2, gid))
    } else if method == "aria2.onDownloadComplete"@ {
        Some((3, gid))
    } else if method == "aria2.onDownloadError"@ {
        Some((4, gid))
    } else if method == "aria2.onBtDownloadComplete"@ {
        Some((5, gid))
    } else {
        None
    }
}

/// The position of an event's kind among the notifications aria2 sends.
pub open spec fn event_kind(e: Aria2Event) -> int {
    match e {
        Aria2Event::DownloadStart(_) => 0,
        Aria2Event::DownloadPause(_) => 1,
        Aria2Event::DownloadStop(_) => 2,
        Aria2Event::DownloadComplete(_) => 3,
        Aria2Event::DownloadError(_) => 4,
        Aria2Event::BtDownloadComplete(_) => 5,
    }
}

impl Aria2Event {
    /// Get the GID associated with this event.
    pub fn gid(&self) -> (r: &str)
        ensures
            r@ == event_gid(*self),
    {
        match self {
            Aria2Event::DownloadStart(gid) => gid.as_str(),
            Aria2Event::DownloadPause(gid) => gid.as_str(),
            Aria2Event::DownloadStop(gid) => gid.as_str(),
            Aria2Event::DownloadComplete(gid) => gid.as_str(),
            Aria2Event::DownloadError(gid) => gid.as_str(),
            Aria2Event::BtDownloadComplete(gid) => gid.as_str(),
        }
    }

    /// The status the event's job takes.
    pub fn target_status(&self) -> (r: JobStatus)
        ensures
            r == event_status(*self),
    {
        match self {
            Aria2Event::DownloadStart(_) => JobStatus::Active,
            Aria2Event::DownloadPause(_) => JobStatus::Paused,
            Aria2Event::DownloadStop(_) => JobStatus::Stopped,
            Aria2Event::DownloadComplete(_) | Aria2Event::BtDownloadComplete(_) => {
                JobStatus::Complete
            },
            Aria2Event::DownloadError(_) => JobStatus::Failed,
        }
    }

    /// The event that a WebSocket notification announces: its method names
    /// the kind and its first parameter's GID the download; other methods
    /// announce none.
    pub fn from_notification(method: &str, gid: String) -> (r: Option<Aria2Event>)
        ensures
            match spec_event_for(method@, gid@) {
                Some((k, g)) => r matches Some(e) && event_kind(e) == k && event_gid(e) == g,
                None => r is None,
            },
    {
        if str_eq(method, "aria2.onDownloadStart") {
            Some(Aria2Event::DownloadStart(gid))
        } else if str_eq(method, "aria2.onDownloadPause") {
            Some(Aria2Event::DownloadPause(gid))
        } else if str_eq(method, "aria2.onDownloadStop") {
            Some(Aria2Event::DownloadStop(gid))
        } else if str_eq(method, "aria2.onDownloadComplete") {
            Some(Aria2Event::DownloadComplete(gid))
        } else if str_eq(method, "aria2.onDownloadError") {
            Some(Aria2Event::DownloadError(gid))
        } else if str_eq(method, "aria2.onBtDownloadComplete") {
            Some(Aria2Event::BtDownloadComplete(gid))
        } else {
            None
        }
    }
}

/// Handles aria2 events: finds the job an event is about and the status to
/// give it.
pub struct EventHandler;

impl EventHandler {
    /// Process an aria2 event: the job that the session maps the event's GID
    /// to, and the status it takes (start: active, pause: paused, stop:
    /// stopped, complete and BitTorrent complete: complete, error: failed);
    /// none for a GID the session does not know.
    pub fn handle(event: &Aria2Event, session: &SessionManager) -> (r: Option<(i64, JobStatus)>)
        ensures
            session@.gid_to_job.dom().contains(event_gid(*event)) ==> r == Some(
                (session@.gid_to_job[event_gid(*event)], event_status(*event)),
            ),
            !session@.gid_to_job.dom().contains(event_gid(*event)) ==> r is None,
    {
        match session.get_job_id(event.gid()) {
            Some(job_id) => Some((job_id, event.target_status())),
            None => None,
        }
    }
}

} // verus!
