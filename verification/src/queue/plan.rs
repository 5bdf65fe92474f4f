//! The decisions of the job queue: what starting, removing and storing a job
//! involves. The binary runs them against the database and aria2.

use vstd::prelude::*;
use crate::aria2::AddUriOptions;
use crate::text::{clone_opt, owned, views};
use super::job::{Job, JobStatus, UnknownStatus, status_from_name};
use super::state_machine::{transition_allowed, StateMachine};

verus! {

/// Why a queue operation was refused.
#[derive(Debug)]
pub enum QueueError {
    /// A job in this status cannot be started.
    CannotStart { status: JobStatus },
}

/// Start a queued job: refused unless its status may move to `Active`;
/// otherwise the options to hand to aria2: the job's directory and file name,
/// nothing else.
pub fn start_options(job: &Job) -> (r: Result<AddUriOptions, QueueError>)
    ensures
        !transition_allowed(job.status, JobStatus::Active) ==> (r matches Err(
            QueueError::CannotStart { status },
        ) && status == job.status),
        transition_allowed(job.status, JobStatus::Active) ==> (r matches Ok(o) && o.dir == job.dir
            && o.out == job.filename && o.header is None && o.referer is None && o.user_agent is None
            && o.max_connections is None && o.split is None && o.max_download_limit is None
            && o.extra@.len() == 0),
{
    if !StateMachine::can_transition(&job.status, &JobStatus::Active) {
        return Err(QueueError::CannotStart { status: job.status });
    }
    Ok(
        AddUriOptions {
            dir: clone_opt(&job.dir),
            out: clone_opt(&job.filename),
            header: None,
            referer: None,
            user_agent: None,
            max_connections: None,
            split: None,
            max_download_limit: None,
            extra: Vec::new(),
        },
    )
}

/// What removing a job involves.
#[derive(Debug)]
pub struct RemovePlan {
    /// The aria2 download to remove, and whose mapping to drop.
    pub gid: Option<String>,
    /// The file to delete (where it exists).
    pub delete_path: Option<String>,
}

/// Remove a job: its aria2 download (where it has one) is removed, and its
/// output file deleted where `delete_files` asks for it and there is one.
pub fn remove_plan(job: &Job, delete_files: bool) -> (r: RemovePlan)
    ensures
        r.gid == job.gid,
        r.delete_path == (if delete_files {
            job.output_path
        } else {
            None
        }),
{
    RemovePlan {
        gid: clone_opt(&job.gid),
        delete_path: if delete_files {
            clone_opt(&job.output_path)
        } else {
            None
        },
    }
}

/// The completion time a status update records: the update time for
/// `Complete`, none otherwise (the stored value is then kept).
pub fn completion_stamp(status: JobStatus, now: i64) -> (r: Option<i64>)
    ensures
        r == (if status == JobStatus::Complete {
            Some(now)
        } else {
            None
        }),
{
    match status {
        JobStatus::Complete => Some(now),
        _ => None,
    }
}

#[verifier::external_type_specification]
#[verifier::external_body]
pub struct ExJsonError(serde_json::Error);

/// The list of strings that `serde_json::from_str` reads from `s`, or
/// `None` where it fails.
pub uninterp spec fn json_string_list(s: Seq<char>) -> Option<Seq<Seq<char>>>;

/// The JSON text that `serde_json::to_string` writes for a list of strings.
pub uninterp spec fn json_of_strings(v: Seq<Seq<char>>) -> Seq<char>;

/// `serde_json::from_str::<Vec<String>>`: succeeds exactly where
/// `json_string_list` names a list, and returns that list; the text that
/// `serde_json::to_string` wrote for a list reads back as that list.
#[verifier::external_body]
fn parse_string_list(s: &str) -> (r: Result<Vec<String>, serde_json::Error>)
    ensures
        r is Ok <==> json_string_list(s@) is Some,
        r matches Ok(v) ==> json_string_list(s@) == Some(views(v@)),
        r is Ok || forall|v: Seq<Seq<char>>| s@ != #[trigger] json_of_strings(v),
        r matches Ok(x) ==> forall|v: Seq<Seq<char>>| s@ == #[trigger] json_of_strings(v) ==> views(x@)
            == v,
{
    serde_json::from_str(s)
}

/// `serde_json::to_string` of a list of strings. What it writes is named by
/// `json_of_strings`. It succeeds: as its documentation says, it fails only
/// where a `Serialize` impl fails or a map has non-string keys, and a list of
/// strings holds neither.
#[verifier::external_body]
fn write_string_list(v: &Vec<String>) -> (r: Result<String, serde_json::Error>)
    ensures
        r is Ok,
        r matches Ok(s) ==> s@ == json_of_strings(views(v@)),
{
    serde_json::to_string(v)
}

/// A stored list of strings (tags, headers), read back: the JSON list, or
/// the empty list where the text is not one. What `encode_string_list` wrote
/// for a list reads back as that list.
pub fn decode_string_list(s: &str) -> (r: Vec<String>)
    ensures
        views(r@) == match json_string_list(s@) {
            Some(v) => v,
            None => Seq::empty(),
        },
        forall|v: Seq<Seq<char>>| s@ == #[trigger] json_of_strings(v) ==> views(r@) == v,
{
    match parse_string_list(s) {
        Ok(v) => v,
        Err(_) => Vec::new(),
    }
}

/// A list of strings could not be written as JSON.
#[derive(Debug)]
pub struct EncodeError;

/// A list of strings (tags, headers) in the JSON form in which it is stored
/// (writing it always succeeds).
pub fn encode_string_list(v: &Vec<String>) -> (r: Result<String, EncodeError>)
    ensures
        r is Ok,
        r matches Ok(s) ==> s@ == json_of_strings(views(v@)),
{
    match write_string_list(v) {
        Ok(s) => Ok(s),
        Err(_) => Err(EncodeError),
    }
}

/// A job as the database stores it (all but its progress percentage).
#[derive(Debug)]
pub struct StoredJob {
    pub id: i64,
    pub url: String,
    pub status: String,
    pub gid: Option<String>,
    pub filename: Option<String>,
    pub dir: Option<String>,
    pub output_path: Option<String>,
    pub total_size: i64,
    pub downloaded: i64,
    pub speed: i64,
    pub category: Option<String>,
    pub tags: String,
    pub headers: String,
    pub referer: Option<String>,
    pub user_agent: Option<String>,
    pub error: Option<String>,
    pub created_at: i64,
    pub updated_at: i64,
    pub completed_at: Option<i64>,
}

/// The list that a stored JSON list denotes, or the empty list.
pub open spec fn list_or_empty(s: Seq<char>) -> Seq<Seq<char>> {
    match json_string_list(s) {
        Some(v) => v,
        None => Seq::empty(),
    }
}

impl StoredJob {
    /// The job a stored row holds: the status word must name a status
    /// (compared after lower-casing); the byte counts are reinterpreted as
    /// unsigned; the tags and headers are read from JSON, or empty where the
    /// text is not a JSON list of strings.
    pub fn into_job(self) -> (r: Result<Job, UnknownStatus>)
        ensures
            status_from_name(crate::text::unicode_lowercase(self.status@)) is None ==> (r matches Err(
                e,
            ) && e.text@ == self.status@),
            status_from_name(crate::text::unicode_lowercase(self.status@)) matches Some(st) ==> (
            r matches Ok(j) && j.id == self.id && j.url == self.url && j.status == st && j.gid
                == self.gid && j.filename == self.filename && j.dir == self.dir && j.output_path
                == self.output_path && j.total_size == self.total_size as u64 && j.downloaded
                == self.downloaded as u64 && j.speed == self.speed as u64 && j.category
                == self.category && views(j.tags@) == list_or_empty(self.tags@) && views(j.headers@)
                == list_or_empty(self.headers@) && j.referer == self.referer && j.user_agent
                == self.user_agent && j.error == self.error && j.created_at == self.created_at
                && j.updated_at == self.updated_at && j.completed_at == self.completed_at),
    {
        let tags = decode_string_list(self.tags.as_str());
        let headers = decode_string_list(self.headers.as_str());
        let status = match JobStatus::parse(self.status.as_str()) {
            Some(st) => st,
            None => return Err(UnknownStatus { text: owned(self.status.as_str()) }),
        };
        Ok(
            Job {
                id: self.id,
                url: self.url,
                status,
                gid: self.gid,
                filename: self.filename,
                dir: self.dir,
                output_path: self.output_path,
                total_size: self.total_size as u64,
                downloaded: self.downloaded as u64,
                speed: self.speed as u64,
                category: self.category,
                tags,
                headers,
                referer: self.referer,
                user_agent: self.user_agent,
                error: self.error,
                created_at: self.created_at,
                updated_at: self.updated_at,
                completed_at: self.completed_at,
            },
        )
    }
}

} // verus!
