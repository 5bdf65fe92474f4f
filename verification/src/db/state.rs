//! State persistence for queue and scheduler: the state that is kept across
//! restarts, and the store that holds it. Reading and writing the file is
//! done by the binary.

use vstd::prelude::*;
use crate::paths::{join, spec_join};
use crate::text::str_eq;

verus! {

/// The name of the state file.
pub open spec fn state_file_name() -> Seq<char> {
    "rustaria-state.toml"@
}

/// Persistent application state.
#[derive(Debug, Clone)]
pub struct AppState {
    /// Queue state.
    pub queue: QueueState,
    /// Scheduler state.
    pub scheduler: SchedulerState,
    /// Job resume data (job_id -> resume info), in insertion order.
    pub resume_data: Vec<(String, ResumeData)>,
    /// Last saved timestamp, in seconds since the Unix epoch.
    pub last_saved: Option<i64>,
}

impl AppState {
    /// Whether the state is the empty default one.
    pub open spec fn is_default(self) -> bool {
        &&& self.queue.job_order@.len() == 0
        &&& self.queue.active_jobs@.len() == 0
        &&& self.queue.paused_jobs@.len() == 0
        &&& !self.scheduler.is_running
        &&& self.scheduler.concurrency_limit is None
        &&& self.scheduler.bandwidth_limit is None
        &&& self.scheduler.active_schedule is None
        &&& self.resume_data@.len() == 0
        &&& self.last_saved is None
    }
}

impl Default for AppState {
    fn default() -> (s: AppState)
        ensures
            s.is_default(),
    {
        AppState {
            queue: QueueState::default(),
            scheduler: SchedulerState::default(),
            resume_data: Vec::new(),
            last_saved: None,
        }
    }
}

/// Persisted queue state.
#[derive(Debug, Clone)]
pub struct QueueState {
    /// List of job IDs in queue order.
    pub job_order: Vec<String>,
    /// Jobs that were active when saved (should resume on restart).
    pub active_jobs: Vec<String>,
    /// Jobs that were paused.
    pub paused_jobs: Vec<String>,
}

impl Default for QueueState {
    fn default() -> (s: QueueState)
        ensures
            s.job_order@.len() == 0 && s.active_jobs@.len() == 0 && s.paused_jobs@.len() == 0,
    {
        QueueState { job_order: Vec::new(), active_jobs: Vec::new(), paused_jobs: Vec::new() }
    }
}

/// Persisted scheduler state.
#[derive(Debug, Clone)]
pub struct SchedulerState {
    /// Whether the scheduler was running.
    pub is_running: bool,
    /// Current concurrency limit.
    pub concurrency_limit: Option<u32>,
    /// Current bandwidth limit in bytes/sec.
    pub bandwidth_limit: Option<u64>,
    /// Active schedule name (if any).
    pub active_schedule: Option<String>,
}

impl Default for SchedulerState {
    fn default() -> (s: SchedulerState)
        ensures
            !s.is_running && s.concurrency_limit is None && s.bandwidth_limit is None
                && s.active_schedule is None,
    {
        SchedulerState {
            is_running: false,
            concurrency_limit: None,
            bandwidth_limit: None,
            active_schedule: None,
        }
    }
}

/// Resume data for a single job.
#[derive(Debug, Clone)]
pub struct ResumeData {
    /// Job ID.
    pub job_id: String,
    /// aria2 GID (if available).
    pub gid: Option<String>,
    /// Original URL.
    pub url: String,
    /// Download directory.
    pub dir: Option<String>,
    /// Output filename.
    pub filename: Option<String>,
    /// Bytes downloaded.
    pub downloaded_bytes: u64,
    /// Total file size (if known).
    pub total_bytes: Option<u64>,
    /// HTTP headers to restore, by name.
    pub headers: Vec<(String, String)>,
    /// Cookies to restore.
    pub cookies: Option<String>,
}

/// The resume data that the last entry for `key` holds, if any.
pub open spec fn resume_lookup(s: Seq<(String, ResumeData)>, key: Seq<char>) -> Option<ResumeData>
    decreases s.len(),
{
    if s.len() == 0 {
        None
    } else if s.last().0@ == key {
        Some(s.last().1)
    } else {
        resume_lookup(s.drop_last(), key)
    }
}

/// The map of job IDs to resume data that a list of entries denotes.
pub open spec fn resume_map(s: Seq<(String, ResumeData)>) -> Map<Seq<char>, ResumeData> {
    Map::new(
        |k: Seq<char>| resume_lookup(s, k) is Some,
        |k: Seq<char>| resume_lookup(s, k)->0,
    )
}

proof fn lemma_resume_lookup_push(s: Seq<(String, ResumeData)>, e: (String, ResumeData), k: Seq<char>)
    ensures
        resume_lookup(s.push(e), k) == if e.0@ == k {
            Some(e.1)
        } else {
            resume_lookup(s, k)
        },
{
    assert(s.push(e).drop_last() =~= s);
}

/// Moves every entry of `key` out of `v`: the entries kept, and the data the
/// last one held.
fn take_entries(v: Vec<(String, ResumeData)>, key: &str) -> (r: (
    Vec<(String, ResumeData)>,
    Option<ResumeData>,
))
    ensures
        r.1 == resume_lookup(v@, key@),
        forall|k: Seq<char>| #[trigger]
            resume_lookup(r.0@, k) == if k == key@ {
                None
            } else {
                resume_lookup(v@, k)
            },
{
    let ghost old_v = v@;
    let mut kept: Vec<(String, ResumeData)> = Vec::new();
    let mut found: Option<ResumeData> = None;
    for e in it: v
        invariant
            it.seq() == old_v,
            found == resume_lookup(old_v.take(it.index() as int), key@),
            forall|k: Seq<char>| #[trigger]
                resume_lookup(kept@, k) == if k == key@ {
                    None
                } else {
                    resume_lookup(old_v.take(it.index() as int), k)
                },
    {
        let ghost i = it.index();
        let ghost before = kept@;
        assert(old_v.take(i + 1) =~= old_v.take(i as int).push(old_v[i as int]));
        assert(e == old_v[i as int]);
        proof {
            assert forall|k: Seq<char>| true implies resume_lookup(old_v.take(i + 1), k) == if e.0@ == k {
                Some(e.1)
            } else {
                resume_lookup(old_v.take(i as int), k)
            } by {
                lemma_resume_lookup_push(old_v.take(i as int), e, k);
            }
        }
        if str_eq(e.0.as_str(), key) {
            found = Some(e.1);
        } else {
            kept.push(e);
            proof {
                assert forall|k: Seq<char>| true implies #[trigger] resume_lookup(kept@, k) == if k == key@ {
                    None
                } else {
                    resume_lookup(old_v.take(i + 1), k)
                } by {
                    lemma_resume_lookup_push(before, kept@.last(), k);
                    assert(kept@ =~= before.push(kept@.last()));
                }
            }
        }
    }
    assert(old_v.take(old_v.len() as int) =~= old_v);
    (kept, found)
}

/// State store manager: the state, and where it is persisted.
#[derive(Debug)]
pub struct StateStore {
    state_path: String,
    state: AppState,
}

impl StateStore {
    /// Where the state is persisted.
    pub closed spec fn spec_path(&self) -> Seq<char> {
        self.state_path@
    }

    /// The state held.
    pub closed spec fn spec_state(&self) -> AppState {
        self.state
    }

    /// The resume data held, by job ID.
    pub open spec fn spec_resume(&self) -> Map<Seq<char>, ResumeData> {
        resume_map(self.spec_state().resume_data@)
    }

    /// Create a new state store: the default state, persisted in
    /// `rustaria-state.toml` under `data_dir`.
    pub fn new(data_dir: &str) -> (s: StateStore)
        ensures
            s.spec_path() == spec_join(data_dir@, state_file_name()),
            s.spec_state().is_default(),
    {
        StateStore { state_path: join(data_dir, "rustaria-state.toml"), state: AppState::default() }
    }

    /// Where the state is persisted.
    pub fn state_path(&self) -> (p: &str)
        ensures
            p@ == self.spec_path(),
    {
        self.state_path.as_str()
    }

    /// Get current state.
    pub fn state(&self) -> (s: &AppState)
        ensures
            *s == self.spec_state(),
    {
        &self.state
    }

    /// Get mutable state.
    pub fn state_mut(&mut self) -> (s: &mut AppState)
        ensures
            *s == old(self).spec_state(),
            final(self).spec_state() == *final(s),
            final(self).spec_path() == old(self).spec_path(),
    {
        &mut self.state
    }

    /// Replace the state (with what was loaded from disk).
    pub fn replace_state(&mut self, state: AppState)
        ensures
            final(self).spec_state() == state,
            final(self).spec_path() == old(self).spec_path(),
    {
        self.state = state;
    }

    /// Stamp the state as saved at `now` (seconds since the Unix epoch).
    pub fn mark_saved(&mut self, now: i64)
        ensures
            final(self).spec_state() == (AppState { last_saved: Some(now), ..old(self).spec_state() }),
            final(self).spec_path() == old(self).spec_path(),
    {
        self.state.last_saved = Some(now);
    }

    /// Update queue state.
    pub fn update_queue(&mut self, queue_state: QueueState)
        ensures
            final(self).spec_state() == (AppState { queue: queue_state, ..old(self).spec_state() }),
            final(self).spec_path() == old(self).spec_path(),
    {
        self.state.queue = queue_state;
    }

    /// Update scheduler state.
    pub fn update_scheduler(&mut self, scheduler_state: SchedulerState)
        ensures
            final(self).spec_state() == (AppState {
                scheduler: scheduler_state,
                ..old(self).spec_state()
            }),
            final(self).spec_path() == old(self).spec_path(),
    {
        self.state.scheduler = scheduler_state;
    }

    /// Add or update resume data for a job.
    pub fn set_resume_data(&mut self, job_id: String, data: ResumeData)
        ensures
            final(self).spec_resume() == old(self).spec_resume().insert(job_id@, data),
            final(self).spec_state().queue == old(self).spec_state().queue,
            final(self).spec_state().scheduler == old(self).spec_state().scheduler,
            final(self).spec_state().last_saved == old(self).spec_state().last_saved,
            final(self).spec_path() == old(self).spec_path(),
    {
        let mut entries: Vec<(String, ResumeData)> = Vec::new();
        std::mem::swap(&mut entries, &mut self.state.resume_data);
        let (mut kept, _) = take_entries(entries, job_id.as_str());
        let ghost mid = kept@;
        let ghost key = job_id@;
        let ghost d = data;
        kept.push((job_id, data));
        proof {
            assert forall|k: Seq<char>| true implies resume_lookup(kept@, k) == if k == key {
                Some(d)
            } else {
                resume_lookup(old(self).state.resume_data@, k)
            } by {
                assert(kept@ =~= mid.push(kept@.last()));
                lemma_resume_lookup_push(mid, kept@.last(), k);
            }
            assert(resume_map(kept@) =~= resume_map(old(self).state.resume_data@).insert(key, d));
        }
        self.state.resume_data = kept;
    }

    /// Remove resume data for a job (e.g., when completed): returns what was
    /// held for it.
    pub fn remove_resume_data(&mut self, job_id: &str) -> (r: Option<ResumeData>)
        ensures
            r == (if old(self).spec_resume().dom().contains(job_id@) {
                Some(old(self).spec_resume()[job_id@])
            } else {
                None
            }),
            final(self).spec_resume() == old(self).spec_resume().remove(job_id@),
            final(self).spec_state().queue == old(self).spec_state().queue,
            final(self).spec_state().scheduler == old(self).spec_state().scheduler,
            final(self).spec_state().last_saved == old(self).spec_state().last_saved,
            final(self).spec_path() == old(self).spec_path(),
    {
        let mut entries: Vec<(String, ResumeData)> = Vec::new();
        std::mem::swap(&mut entries, &mut self.state.resume_data);
        let (kept, found) = take_entries(entries, job_id);
        assert(resume_map(kept@) =~= resume_map(old(self).state.resume_data@).remove(job_id@));
        self.state.resume_data = kept;
        found
    }

    /// Get resume data for a job.
    pub fn get_resume_data(&self, job_id: &str) -> (r: Option<&ResumeData>)
        ensures
            match r {
                Some(d) => self.spec_resume().dom().contains(job_id@) && self.spec_resume()[job_id@]
                    == *d,
                None => !self.spec_resume().dom().contains(job_id@),
            },
    {
        let v = &self.state.resume_data;
        let n = v.len();
        let mut i = n;
        assert(v@.take(n as int) =~= v@);
        while i > 0
            invariant
                i <= n,
                n == v@.len(),
                v@ == self.spec_state().resume_data@,
                resume_lookup(v@, job_id@) == resume_lookup(v@.take(i as int), job_id@),
            decreases i,
        {
            let ghost t = v@.take(i as int);
            assert(t.drop_last() =~= v@.take(i - 1));
            assert(t.last() == v@[i - 1]);
            if str_eq(v[i - 1].0.as_str(), job_id) {
                assert(resume_lookup(t, job_id@) == Some(v@[i - 1].1));
                return Some(&v[i - 1].1);
            }
            i = i - 1;
        }
        None
    }

    /// Clear all state.
    pub fn clear(&mut self)
        ensures
            final(self).spec_state().is_default(),
            final(self).spec_path() == old(self).spec_path(),
    {
        self.state = AppState::default();
    }
}

/// What `set_resume_data` stores, `get_resume_data` gives back, and after
/// `remove_resume_data` nothing is held for that job; other jobs' data is
/// untouched by either.
pub proof fn lemma_resume_read_after_write(
    m: Map<Seq<char>, ResumeData>,
    job: Seq<char>,
    data: ResumeData,
    other: Seq<char>,
)
    requires
        other != job,
    ensures
        m.insert(job, data).dom().contains(job) && m.insert(job, data)[job] == data,
        !m.insert(job, data).remove(job).dom().contains(job),
        m.insert(job, data).dom().contains(other) == m.dom().contains(other),
        m.dom().contains(other) ==> m.insert(job, data)[other] == m[other],
        m.remove(job).dom().contains(other) == m.dom().contains(other),
{
}

} // verus!
