//! The mapping between internal job IDs and aria2 GIDs, and its persisted form.

use vstd::prelude::*;
use crate::paths::{expand_tilde, tilde_expansion_of};
use crate::text::{owned, str_eq};
use super::codec::{bincode_mappings, bincode_read_mappings, lemma_bincode_round_trip, lengths_fit};
use vstd::string::StringSliceAdditionalSpecFns;
use vstd::utf8::encode_utf8;

verus! {

/// The job that the last entry for `gid` maps it to, if any.
pub open spec fn gid_lookup(s: Seq<(String, i64)>, gid: Seq<char>) -> Option<i64>
    decreases s.len(),
{
    if s.len() == 0 {
        None
    } else if s.last().0@ == gid {
        Some(s.last().1)
    } else {
        gid_lookup(s.drop_last(), gid)
    }
}

/// The GID that the last entry for `job` maps it to, if any.
pub open spec fn job_lookup(s: Seq<(i64, String)>, job: i64) -> Option<Seq<char>>
    decreases s.len(),
{
    if s.len() == 0 {
        None
    } else if s.last().0 == job {
        Some(s.last().1@)
    } else {
        job_lookup(s.drop_last(), job)
    }
}

/// The map that a list of (GID, job) entries denotes.
pub open spec fn gid_map(s: Seq<(String, i64)>) -> Map<Seq<char>, i64> {
    Map::new(|g: Seq<char>| gid_lookup(s, g) is Some, |g: Seq<char>| gid_lookup(s, g)->0)
}

/// The map that a list of (job, GID) entries denotes.
pub open spec fn job_map(s: Seq<(i64, String)>) -> Map<i64, Seq<char>> {
    Map::new(|j: i64| job_lookup(s, j) is Some, |j: i64| job_lookup(s, j)->0)
}

/// The characters of each GID of a list of (GID, job) entries.
pub open spec fn pairs_view(s: Seq<(String, i64)>) -> Seq<(Seq<char>, i64)> {
    s.map_values(|e: (String, i64)| (e.0@, e.1))
}

/// What a session manager holds.
pub struct SessionView {
    pub data_dir: Seq<char>,
    pub gid_to_job: Map<Seq<char>, i64>,
    pub job_to_gid: Map<i64, Seq<char>>,
}

/// The mappings after `gid` and `job` are registered with each other.
pub open spec fn registered(v: SessionView, gid: Seq<char>, job: i64) -> SessionView {
    SessionView {
        data_dir: v.data_dir,
        gid_to_job: v.gid_to_job.insert(gid, job),
        job_to_gid: v.job_to_gid.insert(job, gid),
    }
}

/// The mappings after the entry of `gid`, and the entry of the job it mapped
/// to, are removed.
pub open spec fn removed_gid(v: SessionView, gid: Seq<char>) -> SessionView {
    if v.gid_to_job.dom().contains(gid) {
        SessionView {
            data_dir: v.data_dir,
            gid_to_job: v.gid_to_job.remove(gid),
            job_to_gid: v.job_to_gid.remove(v.gid_to_job[gid]),
        }
    } else {
        v
    }
}

/// The mappings after the entry of `job`, and the entry of the GID it mapped
/// to, are removed.
pub open spec fn removed_job(v: SessionView, job: i64) -> SessionView {
    if v.job_to_gid.dom().contains(job) {
        SessionView {
            data_dir: v.data_dir,
            gid_to_job: v.gid_to_job.remove(v.job_to_gid[job]),
            job_to_gid: v.job_to_gid.remove(job),
        }
    } else {
        v
    }
}

/// The mappings after each (GID, job) entry of `m` is registered in turn.
pub open spec fn registered_all(v: SessionView, m: Seq<(Seq<char>, i64)>) -> SessionView
    decreases m.len(),
{
    if m.len() == 0 {
        v
    } else {
        registered(registered_all(v, m.drop_last()), m.last().0, m.last().1)
    }
}

proof fn lemma_gid_lookup_push(s: Seq<(String, i64)>, e: (String, i64), g: Seq<char>)
    ensures
        gid_lookup(s.push(e), g) == if e.0@ == g {
            Some(e.1)
        } else {
            gid_lookup(s, g)
        },
{
    assert(s.push(e).drop_last() =~= s);
}

proof fn lemma_job_lookup_push(s: Seq<(i64, String)>, e: (i64, String), j: i64)
    ensures
        job_lookup(s.push(e), j) == if e.0 == j {
            Some(e.1@)
        } else {
            job_lookup(s, j)
        },
{
    assert(s.push(e).drop_last() =~= s);
}

/// Removes every entry of `gid`; returns the job it mapped to.
fn remove_gid_entries(v: &mut Vec<(String, i64)>, gid: &str) -> (r: Option<i64>)
    ensures
        r == gid_lookup(old(v)@, gid@),
        forall|g: Seq<char>| #[trigger]
            gid_lookup(final(v)@, g) == if g == gid@ {
                None
            } else {
                gid_lookup(old(v)@, g)
            },
{
    let ghost old_v = v@;
    let mut kept: Vec<(String, i64)> = Vec::new();
    let mut found: Option<i64> = None;
    let n = v.len();
    for i in 0..n
        invariant
            n == v@.len(),
            v@ == old_v,
            found == gid_lookup(old_v.take(i as int), gid@),
            forall|g: Seq<char>| #[trigger]
                gid_lookup(kept@, g) == if g == gid@ {
                    None
                } else {
                    gid_lookup(old_v.take(i as int), g)
                },
    {
        let ghost before = kept@;
        let e0 = v[i].0.clone();
        let e1 = v[i].1;
        assert(old_v.take(i + 1) =~= old_v.take(i as int).push(old_v[i as int]));
        proof {
            assert forall|g: Seq<char>| true implies gid_lookup(old_v.take(i + 1), g) == if old_v[i as int].0@ == g {
                Some(old_v[i as int].1)
            } else {
                gid_lookup(old_v.take(i as int), g)
            } by {
                lemma_gid_lookup_push(old_v.take(i as int), old_v[i as int], g);
            }
        }
        if str_eq(e0.as_str(), gid) {
            found = Some(e1);
        } else {
            kept.push((e0, e1));
            proof {
                assert forall|g: Seq<char>| true implies #[trigger] gid_lookup(kept@, g) == if g == gid@ {
                    None
                } else {
                    gid_lookup(old_v.take(i + 1), g)
                } by {
                    lemma_gid_lookup_push(before, kept@.last(), g);
                    assert(kept@ =~= before.push(kept@.last()));
                }
            }
        }
    }
    assert(old_v.take(n as int) =~= old_v);
    *v = kept;
    found
}

/// Removes every entry of `job`; returns the GID it mapped to.
fn remove_job_entries(v: &mut Vec<(i64, String)>, job: i64) -> (r: Option<String>)
    ensures
        match r {
            Some(g) => job_lookup(old(v)@, job) == Some(g@),
            None => job_lookup(old(v)@, job) is None,
        },
        forall|j: i64| #[trigger]
            job_lookup(final(v)@, j) == if j == job {
                None
            } else {
                job_lookup(old(v)@, j)
            },
{
    let ghost old_v = v@;
    let mut kept: Vec<(i64, String)> = Vec::new();
    let mut found: Option<String> = None;
    let n = v.len();
    for i in 0..n
        invariant
            n == v@.len(),
            v@ == old_v,
            match found {
                Some(g) => job_lookup(old_v.take(i as int), job) == Some(g@),
                None => job_lookup(old_v.take(i as int), job) is None,
            },
            forall|j: i64| #[trigger]
                job_lookup(kept@, j) == if j == job {
                    None
                } else {
                    job_lookup(old_v.take(i as int), j)
                },
    {
        let ghost before = kept@;
        let e0 = v[i].0;
        let e1 = v[i].1.clone();
        assert(old_v.take(i + 1) =~= old_v.take(i as int).push(old_v[i as int]));
        proof {
            assert forall|j: i64| true implies job_lookup(old_v.take(i + 1), j) == if old_v[i as int].0 == j {
                Some(old_v[i as int].1@)
            } else {
                job_lookup(old_v.take(i as int), j)
            } by {
                lemma_job_lookup_push(old_v.take(i as int), old_v[i as int], j);
            }
        }
        if e0 == job {
            found = Some(e1);
        } else {
            kept.push((e0, e1));
            proof {
                assert forall|j: i64| true implies #[trigger] job_lookup(kept@, j) == if j == job {
                    None
                } else {
                    job_lookup(old_v.take(i + 1), j)
                } by {
                    lemma_job_lookup_push(before, kept@.last(), j);
                    assert(kept@ =~= before.push(kept@.last()));
                }
            }
        }
    }
    assert(old_v.take(n as int) =~= old_v);
    *v = kept;
    found
}

proof fn lemma_same_keys_same_lookup(a: Seq<(String, i64)>, b: Seq<(String, i64)>)
    requires
        a.len() == b.len(),
        forall|j: int| 0 <= j < a.len() ==> (#[trigger] a[j]).0@ == b[j].0@ && a[j].1 == b[j].1,
    ensures
        forall|g: Seq<char>| gid_lookup(a, g) == gid_lookup(b, g),
    decreases a.len(),
{
    if a.len() > 0 {
        assert forall|j: int| 0 <= j < a.drop_last().len() implies (#[trigger] a.drop_last()[j]).0@
            == b.drop_last()[j].0@ && a.drop_last()[j].1 == b.drop_last()[j].1 by {
            assert(a.drop_last()[j] == a[j]);
            assert(b.drop_last()[j] == b[j]);
        }
        lemma_same_keys_same_lookup(a.drop_last(), b.drop_last());
        assert forall|g: Seq<char>| gid_lookup(a, g) == gid_lookup(b, g) by {
            assert(a.last() == a[a.len() - 1]);
            assert(b.last() == b[b.len() - 1]);
            assert(gid_lookup(a.drop_last(), g) == gid_lookup(b.drop_last(), g));
        }
    }
}

#[verifier::external_type_specification]
#[verifier::external_body]
pub struct ExBincodeErrorKind(bincode::ErrorKind);

/// `bincode::serialize` of the mapping list (the persisted session data,
/// whose only field it is): the bytes that `bincode_mappings` describes. It
/// succeeds: with the byte limit that `serialize` uses (none), writing into a
/// `Vec` fails only where a sequence's length is unknown or a value's
/// `Serialize` impl fails, and neither happens for a `Vec` of
/// `(String, i64)`.
#[verifier::external_body]
fn encode_mappings(m: &Vec<(String, i64)>) -> (r: Result<Vec<u8>, Box<bincode::ErrorKind>>)
    ensures
        r is Ok,
        r matches Ok(b) ==> b@ == bincode_mappings(pairs_view(m@)),
{
    bincode::serialize(m)
}

/// `bincode::deserialize` of a mapping list: succeeds exactly where
/// `bincode_read_mappings` reads a list from the bytes, and returns that list.
#[verifier::external_body]
fn decode_mappings(b: &[u8]) -> (r: Result<Vec<(String, i64)>, Box<bincode::ErrorKind>>)
    ensures
        r is Ok <==> bincode_read_mappings(b@) is Some,
        r matches Ok(m) ==> bincode_read_mappings(b@) == Some(pairs_view(m@)),
{
    bincode::deserialize(b)
}

/// The session data could not be written or read.
#[derive(Debug)]
pub enum SessionError {
    /// The mappings could not be encoded.
    Encode,
    /// The bytes do not hold session data.
    Decode,
}

/// Manages the mapping between internal job IDs and aria2 GIDs.
#[derive(Debug)]
pub struct SessionManager {
    data_dir: String,
    /// Maps GID -> Job ID.
    gid_to_job: Vec<(String, i64)>,
    /// Maps Job ID -> GID.
    job_to_gid: Vec<(i64, String)>,
}

impl View for SessionManager {
    type V = SessionView;

    closed spec fn view(&self) -> SessionView {
        SessionView {
            data_dir: self.data_dir@,
            gid_to_job: gid_map(self.gid_to_job@),
            job_to_gid: job_map(self.job_to_gid@),
        }
    }
}

impl SessionManager {
    /// A session manager with no mappings, persisting under `data_dir`
    /// (taken as it is; `new` expands a leading `~`).
    pub fn new_in(data_dir: &str) -> (m: SessionManager)
        ensures
            m@.data_dir == data_dir@,
            m@.gid_to_job == Map::<Seq<char>, i64>::empty(),
            m@.job_to_gid == Map::<i64, Seq<char>>::empty(),
    {
        let m = SessionManager {
            data_dir: owned(data_dir),
            gid_to_job: Vec::new(),
            job_to_gid: Vec::new(),
        };
        assert(gid_map(m.gid_to_job@) =~= Map::<Seq<char>, i64>::empty());
        assert(job_map(m.job_to_gid@) =~= Map::<i64, Seq<char>>::empty());
        m
    }

    /// A session manager with no mappings, persisting under `data_dir` with
    /// a leading `~` expanded.
    pub fn new(data_dir: &str) -> (m: SessionManager)
        ensures
            tilde_expansion_of(m@.data_dir, data_dir@),
            m@.gid_to_job == Map::<Seq<char>, i64>::empty(),
            m@.job_to_gid == Map::<i64, Seq<char>>::empty(),
    {
        let dir = expand_tilde(data_dir);
        SessionManager::new_in(dir.as_str())
    }

    /// The (GID, job) mappings, to persist.
    pub fn mappings(&self) -> (r: Vec<(String, i64)>)
        ensures
            gid_map(r@) == self@.gid_to_job,
    {
        let mut r: Vec<(String, i64)> = Vec::new();
        let n = self.gid_to_job.len();
        for i in 0..n
            invariant
                n == self.gid_to_job@.len(),
                r@.len() == i,
                forall|j: int| 0 <= j < i ==> (#[trigger] r@[j]).0@ == self.gid_to_job@[j].0@ && r@[j].1
                    == self.gid_to_job@[j].1,
        {
            r.push((owned(self.gid_to_job[i].0.as_str()), self.gid_to_job[i].1));
        }
        proof {
            lemma_same_keys_same_lookup(r@, self.gid_to_job@);
            assert(gid_map(r@) =~= gid_map(self.gid_to_job@));
        }
        r
    }

    /// Registers each (GID, job) mapping of `mappings` in turn.
    pub fn load_mappings(&mut self, mappings: Vec<(String, i64)>)
        ensures
            final(self)@ == registered_all(old(self)@, pairs_view(mappings@)),
    {
        let n = mappings.len();
        for i in 0..n
            invariant
                n == mappings@.len(),
                self@ == registered_all(old(self)@, pairs_view(mappings@.take(i as int))),
        {
            assert(pairs_view(mappings@.take(i + 1)).drop_last() =~= pairs_view(mappings@.take(i as int)));
            self.register(owned(mappings[i].0.as_str()), mappings[i].1);
        }
        assert(mappings@.take(n as int) =~= mappings@);
    }

    /// The session data to persist: the mappings, encoded with bincode
    /// (which always succeeds).
    pub fn save_bytes(&self) -> (r: Result<Vec<u8>, SessionError>)
        ensures
            r is Ok,
            r matches Ok(b) ==> exists|m: Seq<(String, i64)>|
                gid_map(m) == self@.gid_to_job && lengths_fit(pairs_view(m)) && b@
                    == bincode_mappings(pairs_view(m)),
    {
        let m = self.mappings();
        let n = m.len();
        // Each GID's UTF-8 length is that of a byte slice, so it fits in 64
        // bits, as the format's length fields need.
        for i in 0..n
            invariant
                n == m@.len(),
                forall|j: int| 0 <= j < i ==> encode_utf8((#[trigger] m@[j]).0@).len() <= usize::MAX,
        {
            let _ = m[i].0.as_str().as_bytes().len();
        }
        assert(lengths_fit(pairs_view(m@)));
        match encode_mappings(&m) {
            Ok(b) => Ok(b),
            Err(_) => Err(SessionError::Encode),
        }
    }

    /// Loads persisted session data: registers each mapping it holds, in
    /// order; fails, changing nothing, where the bytes do not decode. Bytes
    /// that `save_bytes` wrote load the mappings they were written from.
    pub fn load_bytes(&mut self, bytes: &[u8]) -> (r: Result<(), SessionError>)
        ensures
            match bincode_read_mappings(bytes@) {
                Some(m) => r is Ok && final(self)@ == registered_all(old(self)@, m),
                None => r is Err && final(self)@ == old(self)@,
            },
            forall|m: Seq<(Seq<char>, i64)>|
                lengths_fit(m) && bytes@ == #[trigger] bincode_mappings(m) ==> (r is Ok
                    && final(self)@ == registered_all(old(self)@, m)),
    {
        proof {
            assert forall|m: Seq<(Seq<char>, i64)>|
                lengths_fit(m) && bytes@ == #[trigger] bincode_mappings(m) implies bincode_read_mappings(
                bytes@,
            ) == Some(m) by {
                lemma_bincode_round_trip(m);
            }
        }
        match decode_mappings(bytes) {
            Ok(m) => {
                self.load_mappings(m);
                Ok(())
            },
            Err(_) => Err(SessionError::Decode),
        }
    }

    /// The directory the session file lives in.
    pub fn data_dir(&self) -> (d: &str)
        ensures
            d@ == self@.data_dir,
    {
        self.data_dir.as_str()
    }

    /// Register a GID <-> Job ID mapping.
    pub fn register(&mut self, gid: String, job_id: i64)
        ensures
            final(self)@ == registered(old(self)@, gid@, job_id),
    {
        let ghost g = gid@;
        remove_gid_entries(&mut self.gid_to_job, gid.as_str());
        let ghost mid1 = self.gid_to_job@;
        self.gid_to_job.push((gid.clone(), job_id));
        remove_job_entries(&mut self.job_to_gid, job_id);
        let ghost mid2 = self.job_to_gid@;
        self.job_to_gid.push((job_id, gid));
        proof {
            assert forall|x: Seq<char>| true implies gid_lookup(self.gid_to_job@, x) == if x == g {
                Some(job_id)
            } else {
                gid_lookup(old(self).gid_to_job@, x)
            } by {
                assert(self.gid_to_job@ =~= mid1.push(self.gid_to_job@.last()));
                lemma_gid_lookup_push(mid1, self.gid_to_job@.last(), x);
            }
            assert forall|j: i64| true implies job_lookup(self.job_to_gid@, j) == if j == job_id {
                Some(g)
            } else {
                job_lookup(old(self).job_to_gid@, j)
            } by {
                assert(self.job_to_gid@ =~= mid2.push(self.job_to_gid@.last()));
                lemma_job_lookup_push(mid2, self.job_to_gid@.last(), j);
            }
            assert(gid_map(self.gid_to_job@) =~= gid_map(old(self).gid_to_job@).insert(g, job_id));
            assert(job_map(self.job_to_gid@) =~= job_map(old(self).job_to_gid@).insert(job_id, g));
        }
    }

    /// Remove a mapping by GID.
    pub fn remove_by_gid(&mut self, gid: &str)
        ensures
            final(self)@ == removed_gid(old(self)@, gid@),
    {
        let r = remove_gid_entries(&mut self.gid_to_job, gid);
        match r {
            Some(job_id) => {
                remove_job_entries(&mut self.job_to_gid, job_id);
                assert(job_map(self.job_to_gid@) =~= job_map(old(self).job_to_gid@).remove(job_id));
            },
            None => {},
        }
        assert(gid_map(self.gid_to_job@) =~= gid_map(old(self).gid_to_job@).remove(gid@));
        assert(gid_map(old(self).gid_to_job@).dom().contains(gid@) ==> gid_map(
            old(self).gid_to_job@,
        )[gid@] == r->0);
        proof {
            if r is None {
                assert(gid_map(old(self).gid_to_job@).remove(gid@) =~= gid_map(
                    old(self).gid_to_job@,
                ));
            }
        }
    }

    /// Remove a mapping by job ID.
    pub fn remove_by_job(&mut self, job_id: i64)
        ensures
            final(self)@ == removed_job(old(self)@, job_id),
    {
        let r = remove_job_entries(&mut self.job_to_gid, job_id);
        match r {
            Some(gid) => {
                remove_gid_entries(&mut self.gid_to_job, gid.as_str());
                assert(gid_map(self.gid_to_job@) =~= gid_map(old(self).gid_to_job@).remove(gid@));
            },
            None => {},
        }
        assert(job_map(self.job_to_gid@) =~= job_map(old(self).job_to_gid@).remove(job_id));
        proof {
            if r is None {
                assert(job_map(old(self).job_to_gid@).remove(job_id) =~= job_map(
                    old(self).job_to_gid@,
                ));
            }
        }
    }

    /// Get job ID for a GID.
    pub fn get_job_id(&self, gid: &str) -> (r: Option<i64>)
        ensures
            r == (if self@.gid_to_job.dom().contains(gid@) {
                Some(self@.gid_to_job[gid@])
            } else {
                None
            }),
    {
        let n = self.gid_to_job.len();
        let mut i = n;
        assert(self.gid_to_job@.take(n as int) =~= self.gid_to_job@);
        while i > 0
            invariant
                i <= n,
                n == self.gid_to_job@.len(),
                gid_lookup(self.gid_to_job@, gid@) == gid_lookup(self.gid_to_job@.take(i as int), gid@),
            decreases i,
        {
            let ghost t = self.gid_to_job@.take(i as int);
            assert(t.drop_last() =~= self.gid_to_job@.take(i - 1));
            if str_eq(self.gid_to_job[i - 1].0.as_str(), gid) {
                return Some(self.gid_to_job[i - 1].1);
            }
            i = i - 1;
        }
        None
    }

    /// Get GID for a job ID.
    pub fn get_gid(&self, job_id: i64) -> (r: Option<String>)
        ensures
            match r {
                Some(g) => self@.job_to_gid.dom().contains(job_id) && self@.job_to_gid[job_id] == g@,
                None => !self@.job_to_gid.dom().contains(job_id),
            },
    {
        let n = self.job_to_gid.len();
        let mut i = n;
        assert(self.job_to_gid@.take(n as int) =~= self.job_to_gid@);
        while i > 0
            invariant
                i <= n,
                n == self.job_to_gid@.len(),
                job_lookup(self.job_to_gid@, job_id) == job_lookup(self.job_to_gid@.take(i as int), job_id),
            decreases i,
        {
            let ghost t = self.job_to_gid@.take(i as int);
            assert(t.drop_last() =~= self.job_to_gid@.take(i - 1));
            if self.job_to_gid[i - 1].0 == job_id {
                return Some(self.job_to_gid[i - 1].1.clone());
            }
            i = i - 1;
        }
        None
    }
}

/// What is registered can be looked up, from either side; once it is removed,
/// by its GID or by its job, it can be looked up from neither side.
pub proof fn lemma_lookup_after_register(v: SessionView, gid: Seq<char>, job: i64)
    ensures
        registered(v, gid, job).gid_to_job.dom().contains(gid),
        registered(v, gid, job).gid_to_job[gid] == job,
        registered(v, gid, job).job_to_gid.dom().contains(job),
        registered(v, gid, job).job_to_gid[job] == gid,
        !removed_gid(registered(v, gid, job), gid).gid_to_job.dom().contains(gid),
        !removed_gid(registered(v, gid, job), gid).job_to_gid.dom().contains(job),
        !removed_job(registered(v, gid, job), job).job_to_gid.dom().contains(job),
        !removed_job(registered(v, gid, job), job).gid_to_job.dom().contains(gid),
{
}

/// Registering one mapping leaves the other GIDs' mappings as they were.
pub proof fn lemma_register_is_local(v: SessionView, gid: Seq<char>, job: i64, other: Seq<char>)
    requires
        other != gid,
    ensures
        registered(v, gid, job).gid_to_job.dom().contains(other) == v.gid_to_job.dom().contains(
            other,
        ),
        v.gid_to_job.dom().contains(other) ==> registered(v, gid, job).gid_to_job[other]
            == v.gid_to_job[other],
{
}

proof fn lemma_gid_map_push(s: Seq<(String, i64)>, e: (String, i64))
    ensures
        gid_map(s.push(e)) == gid_map(s).insert(e.0@, e.1),
{
    assert forall|g: Seq<char>| true implies gid_lookup(s.push(e), g) == if e.0@ == g {
        Some(e.1)
    } else {
        gid_lookup(s, g)
    } by {
        lemma_gid_lookup_push(s, e, g);
    }
    assert(gid_map(s.push(e)) =~= gid_map(s).insert(e.0@, e.1));
}

/// Registering each entry of `m` in turn, starting from no GID mappings,
/// maps the GIDs as the list `m` does.
proof fn lemma_registered_all_from_empty(v: SessionView, m: Seq<(String, i64)>)
    requires
        v.gid_to_job == Map::<Seq<char>, i64>::empty(),
    ensures
        registered_all(v, pairs_view(m)).gid_to_job == gid_map(m),
    decreases m.len(),
{
    if m.len() == 0 {
        assert(gid_map(m) =~= Map::<Seq<char>, i64>::empty());
    } else {
        let init = m.drop_last();
        assert(pairs_view(m).drop_last() =~= pairs_view(init));
        lemma_registered_all_from_empty(v, init);
        assert(m =~= init.push(m.last()));
        lemma_gid_map_push(init, m.last());
    }
}

/// What `save_bytes` writes, `load_bytes` reads back: loading the bytes that
/// a session was saved to into a session with no mappings maps every GID to
/// the job that the saved session mapped it to, and no other GID.
pub proof fn lemma_session_save_load(saved: SessionView, bytes: Seq<u8>, fresh: SessionView, loaded: SessionView)
    requires
        exists|m: Seq<(String, i64)>|
            gid_map(m) == saved.gid_to_job && lengths_fit(pairs_view(m)) && bytes
                == #[trigger] bincode_mappings(pairs_view(m)),
        forall|m: Seq<(Seq<char>, i64)>|
            lengths_fit(m) && bytes == #[trigger] bincode_mappings(m) ==> loaded == registered_all(
                fresh,
                m,
            ),
        fresh.gid_to_job == Map::<Seq<char>, i64>::empty(),
    ensures
        loaded.gid_to_job == saved.gid_to_job,
{
    let m = choose|m: Seq<(String, i64)>|
        gid_map(m) == saved.gid_to_job && lengths_fit(pairs_view(m)) && bytes
            == #[trigger] bincode_mappings(pairs_view(m));
    lemma_registered_all_from_empty(fresh, m);
}

} // verus!
