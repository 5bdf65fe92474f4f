//! The job record and its status.

use vstd::prelude::*;
use crate::text::{all_ascii, ascii_lower, ascii_upper, str_eq, to_lowercase, unicode_lowercase};

verus! {

/// Job status.
#[derive(Debug, Clone, Copy, PartialEq, Eq, Structural)]
pub enum JobStatus {
    /// Job created, waiting in queue.
    Queued,
    /// Job is actively downloading.
    Active,
    /// Job is paused.
    Paused,
    /// Job was stopped by user.
    Stopped,
    /// Job completed successfully.
    Complete,
    /// Job failed with an error.
    Failed,
}

/// The lower-case word by which a status is written and stored.
pub open spec fn status_name(s: JobStatus) -> Seq<char> {
    match s {
        JobStatus::Queued => "queued"@,
        JobStatus::Active => "active"@,
        JobStatus::Paused => "paused"@,
        JobStatus::Stopped => "stopped"@,
        JobStatus::Complete => "complete"@,
        JobStatus::Failed => "failed"@,
    }
}

/// The status that a lower-case word names, if any.
pub open spec fn status_from_name(n: Seq<char>) -> Option<JobStatus> {
    if n == "queued"@ {
        Some(JobStatus::Queued)
    } else if n == "active"@ {
        Some(JobStatus::Active)
    } else if n == "paused"@ {
        Some(JobStatus::Paused)
    } else if n == "stopped"@ {
        Some(JobStatus::Stopped)
    } else if n == "complete"@ {
        Some(JobStatus::Complete)
    } else if n == "failed"@ {
        Some(JobStatus::Failed)
    } else {
        None
    }
}

/// The error of parsing a word that names no status.
#[derive(Debug)]
pub struct UnknownStatus {
    /// The text that was given.
    pub text: String,
}

impl JobStatus {
    /// The word by which the status is written ("queued", "active", ...).
    pub fn as_str(&self) -> (r: &'static str)
        ensures
            r@ == status_name(*self),
    {
        match self {
            JobStatus::Queued => "queued",
            JobStatus::Active => "active",
            JobStatus::Paused => "paused",
            JobStatus::Stopped => "stopped",
            JobStatus::Complete => "complete",
            JobStatus::Failed => "failed",
        }
    }

    /// Parses a status word, ignoring case: the text is lower-cased first
    /// (for ASCII text, by mapping `A`..`Z` to `a`..`z`).
    pub fn parse(s: &str) -> (r: Option<JobStatus>)
        ensures
            r == status_from_name(unicode_lowercase(s@)),
            all_ascii(s@) ==> r == status_from_name(ascii_lower(s@)),
    {
        let lower = to_lowercase(s);
        let l = lower.as_str();
        if str_eq(l, "queued") {
            Some(JobStatus::Queued)
        } else if str_eq(l, "active") {
            Some(JobStatus::Active)
        } else if str_eq(l, "paused") {
            Some(JobStatus::Paused)
        } else if str_eq(l, "stopped") {
            Some(JobStatus::Stopped)
        } else if str_eq(l, "complete") {
            Some(JobStatus::Complete)
        } else if str_eq(l, "failed") {
            Some(JobStatus::Failed)
        } else {
            None
        }
    }
}

impl std::str::FromStr for JobStatus {
    type Err = UnknownStatus;

    /// Parses a status word as `parse` does; a word that names no status is
    /// refused with the text given.
    fn from_str(s: &str) -> (r: Result<Self, Self::Err>)
        ensures
            match status_from_name(unicode_lowercase(s@)) {
                Some(st) => r == Ok::<JobStatus, UnknownStatus>(st),
                None => r matches Err(e) && e.text@ == s@,
            },
            all_ascii(s@) ==> match status_from_name(ascii_lower(s@)) {
                Some(st) => r == Ok::<JobStatus, UnknownStatus>(st),
                None => r matches Err(e) && e.text@ == s@,
            },
    {
        match JobStatus::parse(s) {
            Some(st) => Ok(st),
            None => Err(UnknownStatus { text: crate::text::owned(s) }),
        }
    }
}

/// Every status's word is ASCII and parses back to that status, written in
/// lower case or in upper case; so `s.as_str().parse()` and
/// `s.as_str().to_uppercase().parse()` both give `Ok(s)` (by `from_str`'s
/// `ensures`).
pub proof fn lemma_status_word_round_trip(st: JobStatus)
    ensures
        all_ascii(status_name(st)),
        status_from_name(ascii_lower(status_name(st))) == Some(st),
        all_ascii(ascii_upper(status_name(st))),
        status_from_name(ascii_lower(ascii_upper(status_name(st)))) == Some(st),
{
    reveal_strlit("queued");
    reveal_strlit("active");
    reveal_strlit("paused");
    reveal_strlit("stopped");
    reveal_strlit("complete");
    reveal_strlit("failed");
    let n = status_name(st);
    assert(ascii_lower(n) =~= n);
    assert(ascii_lower(ascii_upper(n)) =~= n);
    assert("queued"@[0] != "active"@[0] && "queued"@[0] != "paused"@[0] && "queued"@[0]
        != "stopped"@[0] && "queued"@[0] != "complete"@[0] && "queued"@[0] != "failed"@[0]);
    assert("active"@[0] != "paused"@[0] && "active"@[0] != "stopped"@[0] && "active"@[0]
        != "complete"@[0] && "active"@[0] != "failed"@[0]);
    assert("paused"@.len() != "stopped"@.len() && "paused"@[0] != "complete"@[0] && "paused"@[0]
        != "failed"@[0]);
    assert("stopped"@[0] != "complete"@[0] && "stopped"@[0] != "failed"@[0]);
    assert("complete"@[0] != "failed"@[0]);
}

/// A download job. (The progress percentage that the store keeps beside a job
/// is a float; it is held by the binary, which computes it from the byte counts.)
#[derive(Debug, Clone)]
pub struct Job {
    /// Internal job ID.
    pub id: i64,
    /// Download URL.
    pub url: String,
    /// Current status.
    pub status: JobStatus,
    /// aria2 GID (if submitted to aria2).
    pub gid: Option<String>,
    /// Output filename.
    pub filename: Option<String>,
    /// Download directory.
    pub dir: Option<String>,
    /// Full output path after completion.
    pub output_path: Option<String>,
    /// Total file size in bytes.
    pub total_size: u64,
    /// Downloaded bytes.
    pub downloaded: u64,
    /// Current download speed in bytes/sec.
    pub speed: u64,
    /// Category for organization.
    pub category: Option<String>,
    /// Tags for filtering.
    pub tags: Vec<String>,
    /// HTTP headers to send.
    pub headers: Vec<String>,
    /// Referer URL.
    pub referer: Option<String>,
    /// User agent string.
    pub user_agent: Option<String>,
    /// Error message if failed.
    pub error: Option<String>,
    /// Creation timestamp.
    pub created_at: i64,
    /// Last update timestamp.
    pub updated_at: i64,
    /// Completion timestamp.
    pub completed_at: Option<i64>,
}

/// `chrono::Utc::now().timestamp()`: the current time in seconds since the Unix
/// epoch. Which time it is, is the clock's; on native targets it is not
/// before the epoch, since `Utc::now` measures the time elapsed since the
/// epoch (and panics on a clock set before it).
#[verifier::external_body]
fn unix_now() -> (r: i64)
    ensures
        r >= 0,
{
    chrono::Utc::now().timestamp()
}

impl Job {
    /// Whether `self` is the fresh job that `new` makes from these values at time `now`.
    pub open spec fn is_fresh(
        self,
        url: Seq<char>,
        filename: Option<String>,
        dir: Option<String>,
        category: Option<String>,
        tags: Seq<String>,
        now: i64,
    ) -> bool {
        &&& self.id == 0
        &&& self.url@ == url
        &&& self.status == JobStatus::Queued
        &&& self.gid is None
        &&& self.filename == filename
        &&& self.dir == dir
        &&& self.output_path is None
        &&& self.total_size == 0
        &&& self.downloaded == 0
        &&& self.speed == 0
        &&& self.category == category
        &&& self.tags@ == tags
        &&& self.headers@.len() == 0
        &&& self.referer is None
        &&& self.user_agent is None
        &&& self.error is None
        &&& self.created_at == now
        &&& self.updated_at == now
        &&& self.completed_at is None
    }

    /// Create a new queued job, stamped with the current time.
    pub fn new(
        url: String,
        filename: Option<String>,
        dir: Option<String>,
        category: Option<String>,
        tags: Vec<String>,
    ) -> (job: Job)
        ensures
            exists|now: i64| now >= 0 && job.is_fresh(url@, filename, dir, category, tags@, now),
    {
        let now = unix_now();
        Job::new_at(url, filename, dir, category, tags, now)
    }

    /// Create a new queued job stamped with the time `now`.
    pub fn new_at(
        url: String,
        filename: Option<String>,
        dir: Option<String>,
        category: Option<String>,
        tags: Vec<String>,
        now: i64,
    ) -> (job: Job)
        ensures
            job.is_fresh(url@, filename, dir, category, tags@, now),
    {
        Job {
            id: 0,
            url,
            status: JobStatus::Queued,
            gid: None,
            filename,
            dir,
            output_path: None,
            total_size: 0,
            downloaded: 0,
            speed: 0,
            category,
            tags,
            headers: Vec::new(),
            referer: None,
            user_agent: None,
            error: None,
            created_at: now,
            updated_at: now,
            completed_at: None,
        }
    }

    /// Check if job is in a final state.
    pub fn is_finished(&self) -> (r: bool)
        ensures
            r == (self.status == JobStatus::Complete || self.status == JobStatus::Failed
                || self.status == JobStatus::Stopped),
    {
        match self.status {
            JobStatus::Complete | JobStatus::Failed | JobStatus::Stopped => true,
            _ => false,
        }
    }

    /// Check if job can be started.
    pub fn can_start(&self) -> (r: bool)
        ensures
            r == (self.status == JobStatus::Queued || self.status == JobStatus::Paused),
    {
        match self.status {
            JobStatus::Queued | JobStatus::Paused => true,
            _ => false,
        }
    }

    /// Check if job can be paused.
    pub fn can_pause(&self) -> (r: bool)
        ensures
            r == (self.status == JobStatus::Active),
    {
        match self.status {
            JobStatus::Active => true,
            _ => false,
        }
    }
}

} // verus!
