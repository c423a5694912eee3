//! The job registry: at most one clean-up job per (workspace, channel) pair.

use crate::error::EuleError;
use crate::time::{saturating_diff, SerializableInstant, TimeSpan, NANOS_PER_SEC};
use vstd::prelude::*;

verus! {

/// One scheduled clean-up job.
#[derive(Clone, Copy, Debug)]
pub struct CleanupTask {
    /// The span between runs.
    pub interval: TimeSpan,
    /// When the job last ran to completion (or was created).
    pub last_cleanup: SerializableInstant,
}

impl CleanupTask {
    /// The job as (interval, last run), both in nanoseconds.
    pub open spec fn model(self) -> (nat, nat) {
        (self.interval@, self.last_cleanup@)
    }

    /// A new job with the given interval, last run at `now`.
    pub fn new_at(interval: TimeSpan, now: SerializableInstant) -> (r: CleanupTask)
        ensures
            r.model() == (interval@, now@),
    {
        CleanupTask { interval, last_cleanup: now }
    }

    /// A new job with the given interval, last run at the current time.
    pub fn new(interval: TimeSpan) -> (r: CleanupTask)
        ensures
            r.interval@ == interval@,
    {
        Self::new_at(interval, SerializableInstant::now())
    }

    /// Whether the job is due at `now`: at least one interval has passed
    /// since its last run.
    pub fn is_due_at(&self, now: &SerializableInstant) -> (r: bool)
        ensures
            r == is_due(self.model(), now@),
    {
        let since = now.duration_since(self.last_cleanup);
        since.is_at_least(&self.interval)
    }

    /// Whether the job is due at the current time.
    pub fn is_due(&self) -> (r: bool)
        ensures
            exists|now: nat| r == #[trigger] is_due(self.model(), now),
    {
        self.is_due_at(&SerializableInstant::now())
    }
}

/// A job given as (interval, last run) is due at `now` when the time since
/// its last run has reached its interval.
pub open spec fn is_due(job: (nat, nat), now: nat) -> bool {
    saturating_diff(now, job.1) >= job.0
}

/// A job together with the pair that identifies it.
#[derive(Clone, Copy, Debug)]
pub struct JobEntry {
    pub guild_id: u64,
    pub channel_id: u64,
    pub task: CleanupTask,
}

/// The (workspace, channel) pair of an entry.
pub open spec fn key_of(e: JobEntry) -> (u64, u64) {
    (e.guild_id, e.channel_id)
}

/// The jobs that a sequence of entries holds, a later entry overriding an
/// earlier one with the same pair.
pub open spec fn jobs_of(s: Seq<JobEntry>) -> Map<(u64, u64), (nat, nat)>
    decreases s.len(),
{
    if s.len() == 0 {
        Map::empty()
    } else {
        jobs_of(s.drop_last()).insert(key_of(s.last()), s.last().task.model())
    }
}

/// No two entries share a pair.
pub open spec fn unique_keys(s: Seq<JobEntry>) -> bool {
    forall|i: int, j: int|
        0 <= i < s.len() && 0 <= j < s.len() && i != j ==> key_of(s[i]) != key_of(s[j])
}

/// Whether a pair belongs to workspace `g`.
pub open spec fn in_guild(g: u64) -> spec_fn((u64, u64)) -> bool {
    |k: (u64, u64)| k.0 == g
}

/// The number of jobs of workspace `g`.
pub open spec fn guild_count(m: Map<(u64, u64), (nat, nat)>, g: u64) -> nat {
    m.dom().filter(in_guild(g)).len()
}

proof fn lemma_jobs_of_finite(s: Seq<JobEntry>)
    ensures
        jobs_of(s).dom().finite(),
    decreases s.len(),
{
    if s.len() > 0 {
        lemma_jobs_of_finite(s.drop_last());
    }
}

proof fn lemma_jobs_of_index(s: Seq<JobEntry>)
    requires
        unique_keys(s),
    ensures
        forall|i: int|
            0 <= i < s.len() ==> #[trigger] jobs_of(s).contains_key(key_of(s[i]))
                && jobs_of(s)[key_of(s[i])] == s[i].task.model(),
        forall|k: (u64, u64)|
            #[trigger] jobs_of(s).contains_key(k) ==> exists|i: int|
                0 <= i < s.len() && key_of(s[i]) == k,
    decreases s.len(),
{
    if s.len() > 0 {
        let p = s.drop_last();
        assert(unique_keys(p));
        lemma_jobs_of_index(p);
        let last = s.last();
        assert(jobs_of(s) == jobs_of(p).insert(key_of(last), last.task.model()));
        assert forall|i: int| 0 <= i < s.len() implies #[trigger] jobs_of(s).contains_key(
            key_of(s[i]),
        ) && jobs_of(s)[key_of(s[i])] == s[i].task.model() by {
            if i < s.len() - 1 {
                assert(p[i] == s[i]);
                assert(jobs_of(p).contains_key(key_of(p[i])));
                assert(key_of(s[i]) != key_of(s[s.len() - 1]));
            }
        }
        assert forall|k: (u64, u64)| #[trigger] jobs_of(s).contains_key(k) implies exists|i: int|
            0 <= i < s.len() && key_of(s[i]) == k by {
            if k != key_of(last) {
                assert(jobs_of(p).contains_key(k));
                let i = choose|i: int| 0 <= i < p.len() && key_of(p[i]) == k;
                assert(p[i] == s[i]);
            } else {
                assert(key_of(s[s.len() - 1]) == k);
            }
        }
    }
}

proof fn lemma_jobs_of_update(s: Seq<JobEntry>, i: int, e: JobEntry)
    requires
        unique_keys(s),
        0 <= i < s.len(),
        key_of(e) == key_of(s[i]),
    ensures
        jobs_of(s.update(i, e)) == jobs_of(s).insert(key_of(e), e.task.model()),
    decreases s.len(),
{
    let u = s.update(i, e);
    let p = s.drop_last();
    if i == s.len() - 1 {
        assert(u.drop_last() =~= p);
        assert(jobs_of(u) =~= jobs_of(s).insert(key_of(e), e.task.model()));
    } else {
        assert(unique_keys(p));
        assert(u.drop_last() =~= p.update(i, e));
        lemma_jobs_of_update(p, i, e);
        assert(key_of(s.last()) != key_of(s[i]));
        assert(jobs_of(u) =~= jobs_of(s).insert(key_of(e), e.task.model()));
    }
}

proof fn lemma_jobs_of_remove(s: Seq<JobEntry>, i: int)
    requires
        unique_keys(s),
        0 <= i < s.len(),
    ensures
        jobs_of(s.remove(i)) == jobs_of(s).remove(key_of(s[i])),
        unique_keys(s.remove(i)),
    decreases s.len(),
{
    let r = s.remove(i);
    let p = s.drop_last();
    assert(unique_keys(p));
    assert(unique_keys(r)) by {
        assert forall|a: int, b: int|
            0 <= a < r.len() && 0 <= b < r.len() && a != b implies key_of(r[a]) != key_of(
            r[b],
        ) by {
            let a2 = if a < i { a } else { a + 1 };
            let b2 = if b < i { b } else { b + 1 };
            assert(r[a] == s[a2]);
            assert(r[b] == s[b2]);
        }
    }
    if i == s.len() - 1 {
        assert(r =~= p);
        lemma_jobs_of_index(p);
        assert(!jobs_of(p).contains_key(key_of(s[i])));
        assert(jobs_of(r) =~= jobs_of(s).remove(key_of(s[i])));
    } else {
        assert(r.drop_last() =~= p.remove(i));
        assert(r.last() == s.last());
        lemma_jobs_of_remove(p, i);
        assert(key_of(s.last()) != key_of(s[i]));
        assert(jobs_of(r) =~= jobs_of(s).remove(key_of(s[i])));
    }
}

/// Adding a job for (g, c) to the jobs `m`: afterwards (g, c) holds exactly
/// that job, and the count of workspace `g` has grown by one, or stayed the
/// same when the job replaced one for the same pair.
pub proof fn lemma_add_job(m: Map<(u64, u64), (nat, nat)>, g: u64, c: u64, job: (nat, nat))
    requires
        m.dom().finite(),
    ensures
        m.insert((g, c), job).contains_key((g, c)),
        m.insert((g, c), job)[(g, c)] == job,
        guild_count(m.insert((g, c), job), g) == guild_count(m, g) + (if m.contains_key((g, c)) {
            0int
        } else {
            1int
        }),
{
    lemma_guild_count_insert(m, (g, c), job, g);
}

proof fn lemma_guild_count_insert(m: Map<(u64, u64), (nat, nat)>, k: (u64, u64), v: (nat, nat), g: u64)
    requires
        m.dom().finite(),
    ensures
        guild_count(m.insert(k, v), g) == guild_count(m, g) + (if k.0 == g && !m.contains_key(k) {
            1int
        } else {
            0int
        }),
{
    let f = m.dom().filter(in_guild(g));
    let f2 = m.insert(k, v).dom().filter(in_guild(g));
    m.dom().lemma_len_filter(in_guild(g));
    assert(m.insert(k, v).dom() =~= m.dom().insert(k));
    if k.0 == g {
        assert(f.contains(k) == m.contains_key(k));
        assert(f2 =~= f.insert(k));
    } else {
        assert(f2 =~= f);
    }
}

/// Removing the job for (g, c) from the jobs `m`: afterwards there is none,
/// and the count of workspace `g` has dropped by one when there was one, and
/// is unchanged when there was none.
pub proof fn lemma_remove_job(m: Map<(u64, u64), (nat, nat)>, g: u64, c: u64)
    requires
        m.dom().finite(),
    ensures
        !m.remove((g, c)).contains_key((g, c)),
        guild_count(m.remove((g, c)), g) == guild_count(m, g) - (if m.contains_key((g, c)) {
            1int
        } else {
            0int
        }),
{
    lemma_guild_count_remove(m, (g, c), g);
}

proof fn lemma_guild_count_remove(m: Map<(u64, u64), (nat, nat)>, k: (u64, u64), g: u64)
    requires
        m.dom().finite(),
    ensures
        guild_count(m.remove(k), g) == guild_count(m, g) - (if k.0 == g && m.contains_key(k) {
            1int
        } else {
            0int
        }),
{
    let f = m.dom().filter(in_guild(g));
    let f2 = m.remove(k).dom().filter(in_guild(g));
    m.dom().lemma_len_filter(in_guild(g));
    assert(m.remove(k).dom() =~= m.dom().remove(k));
    if k.0 == g {
        assert(f.contains(k) == m.contains_key(k));
        assert(f2 =~= f.remove(k));
    } else {
        assert(f2 =~= f);
    }
}

/// One job as it is written to a snapshot: workspace, channel, interval
/// (seconds, nanoseconds) and last run (seconds, nanoseconds since the epoch).
pub type TaskRecord = (u64, u64, u64, u32, u64, u32);

/// The pair that a record names.
pub open spec fn record_key(r: TaskRecord) -> (u64, u64) {
    (r.0, r.1)
}

/// The (interval, last run) that a record holds, in nanoseconds.
pub open spec fn record_job(r: TaskRecord) -> (nat, nat) {
    ((r.2 * 1_000_000_000 + r.3) as nat, (r.4 * 1_000_000_000 + r.5) as nat)
}

/// A record whose sub-second parts are under a second and whose interval
/// is positive.
pub open spec fn record_valid(r: TaskRecord) -> bool {
    &&& r.3 < 1_000_000_000
    &&& r.5 < 1_000_000_000
    &&& r.2 * 1_000_000_000 + r.3 > 0
}

/// Every record of `rs` is valid.
pub open spec fn records_valid(rs: Seq<TaskRecord>) -> bool {
    forall|i: int| 0 <= i < rs.len() ==> record_valid(#[trigger] rs[i])
}

/// The jobs that a snapshot rebuilds: each record in turn, a later record
/// overriding an earlier one for the same pair.
pub open spec fn jobs_of_records(rs: Seq<TaskRecord>) -> Map<(u64, u64), (nat, nat)>
    decreases rs.len(),
{
    if rs.len() == 0 {
        Map::empty()
    } else {
        jobs_of_records(rs.drop_last()).insert(record_key(rs.last()), record_job(rs.last()))
    }
}

/// `rs` lists the jobs of `m`, each exactly once.
pub open spec fn lists_jobs(rs: Seq<TaskRecord>, m: Map<(u64, u64), (nat, nat)>) -> bool {
    &&& forall|i: int|
        0 <= i < rs.len() ==> #[trigger] m.contains_key(record_key(rs[i])) && m[record_key(rs[i])]
            == record_job(rs[i])
    &&& forall|k: (u64, u64)| #[trigger] m.contains_key(k) ==> exists|i: int|
        0 <= i < rs.len() && record_key(rs[i]) == k
    &&& forall|i: int, j: int|
        0 <= i < rs.len() && 0 <= j < rs.len() && i != j ==> record_key(rs[i]) != record_key(rs[j])
}

/// A snapshot that lists each job of `m` once rebuilds exactly `m`, in
/// whatever order the records come.
pub proof fn lemma_snapshot_round_trip(rs: Seq<TaskRecord>, m: Map<(u64, u64), (nat, nat)>)
    requires
        lists_jobs(rs, m),
    ensures
        jobs_of_records(rs) == m,
    decreases rs.len(),
{
    if rs.len() == 0 {
        assert(m =~= Map::empty()) by {
            assert forall|k: (u64, u64)| !m.contains_key(k) by {
                if m.contains_key(k) {
                    let i = choose|i: int| 0 <= i < rs.len() && record_key(rs[i]) == k;
                }
            }
        }
    } else {
        let p = rs.drop_last();
        let k = record_key(rs.last());
        let m2 = m.remove(k);
        assert(m.contains_key(record_key(rs[rs.len() - 1])));
        assert(lists_jobs(p, m2)) by {
            assert forall|i: int| 0 <= i < p.len() implies #[trigger] m2.contains_key(record_key(p[i]))
                && m2[record_key(p[i])] == record_job(p[i]) by {
                assert(p[i] == rs[i]);
                assert(m.contains_key(record_key(rs[i])));
                assert(record_key(rs[i]) != record_key(rs[rs.len() - 1]));
            }
            assert forall|k2: (u64, u64)| #[trigger] m2.contains_key(k2) implies exists|i: int|
                0 <= i < p.len() && record_key(p[i]) == k2 by {
                assert(m.contains_key(k2));
                let i = choose|i: int| 0 <= i < rs.len() && record_key(rs[i]) == k2;
                assert(i != rs.len() - 1);
                assert(p[i] == rs[i]);
            }
            assert forall|i: int, j: int|
                0 <= i < p.len() && 0 <= j < p.len() && i != j implies record_key(p[i])
                != record_key(p[j]) by {
                assert(p[i] == rs[i]);
                assert(p[j] == rs[j]);
            }
        }
        lemma_snapshot_round_trip(p, m2);
        assert(jobs_of_records(rs) =~= m);
    }
}

/// The registry of clean-up jobs, keyed by (workspace, channel).
pub struct TaskRegistry {
    entries: Vec<JobEntry>,
}

impl View for TaskRegistry {
    type V = Map<(u64, u64), (nat, nat)>;

    /// Each job's (interval, last run) in nanoseconds, by its pair.
    closed spec fn view(&self) -> Map<(u64, u64), (nat, nat)> {
        jobs_of(self.entries@)
    }
}

/// Every job of the registry runs at a positive interval.
pub open spec fn intervals_positive(m: Map<(u64, u64), (nat, nat)>) -> bool {
    forall|k: (u64, u64)| #[trigger] m.contains_key(k) ==> m[k].0 > 0
}

proof fn lemma_intervals_positive(s: Seq<JobEntry>)
    requires
        unique_keys(s),
        forall|i: int| 0 <= i < s.len() ==> #[trigger] s[i].task.interval@ > 0,
    ensures
        intervals_positive(jobs_of(s)),
{
    lemma_jobs_of_index(s);
    assert forall|k: (u64, u64)| #[trigger] jobs_of(s).contains_key(k) implies jobs_of(s)[k].0 > 0 by {
        let i = choose|i: int| 0 <= i < s.len() && key_of(s[i]) == k;
        assert(jobs_of(s).contains_key(key_of(s[i])));
    }
}

impl TaskRegistry {
    #[verifier::type_invariant]
    spec fn inv(self) -> bool {
        &&& unique_keys(self.entries@)
        &&& forall|i: int| 0 <= i < self.entries@.len() ==> #[trigger] self.entries@[i].task.interval@ > 0
    }

    /// An empty registry.
    pub fn new() -> (r: TaskRegistry)
        ensures
            r@ == Map::<(u64, u64), (nat, nat)>::empty(),
            intervals_positive(r@),
    {
        TaskRegistry { entries: Vec::new() }
    }

    /// The index of the entry for (g, c), if there is one.
    fn find(&self, g: u64, c: u64) -> (r: Option<usize>)
        ensures
            r matches Some(i) ==> i < self.entries@.len() && key_of(self.entries@[i as int]) == (g, c),
            r is None ==> !self@.contains_key((g, c)),
    {
        proof {
            use_type_invariant(self);
            lemma_jobs_of_index(self.entries@);
        }
        let mut i: usize = 0;
        while i < self.entries.len()
            invariant
                i <= self.entries@.len(),
                forall|j: int| 0 <= j < i ==> key_of(#[trigger] self.entries@[j]) != (g, c),
            decreases self.entries@.len() - i,
        {
            let e = &self.entries[i];
            if e.guild_id == g && e.channel_id == c {
                return Some(i);
            }
            i += 1;
        }
        None
    }

    /// Whether a job exists for (g, c).
    pub fn contains(&self, g: u64, c: u64) -> (r: bool)
        ensures
            r == self@.contains_key((g, c)),
    {
        proof {
            use_type_invariant(self);
            lemma_jobs_of_index(self.entries@);
        }
        self.find(g, c).is_some()
    }

    /// The job for (g, c), if there is one.
    pub fn get(&self, g: u64, c: u64) -> (r: Option<CleanupTask>)
        ensures
            r matches Some(t) ==> self@.contains_key((g, c)) && self@[(g, c)] == t.model(),
            r is None ==> !self@.contains_key((g, c)),
    {
        proof {
            use_type_invariant(self);
            lemma_jobs_of_index(self.entries@);
        }
        match self.find(g, c) {
            Some(i) => {
                proof { assert(jobs_of(self.entries@).contains_key(key_of(self.entries@[i as int]))); }
                Some(self.entries[i].task)
            },
            None => None,
        }
    }

    /// Sets the job for (g, c) to `task`, replacing any job for that pair.
    /// A zero interval is refused.
    pub fn insert(&mut self, g: u64, c: u64, task: CleanupTask) -> (r: Result<(), EuleError>)
        ensures
            r is Ok <==> task.interval@ > 0,
            r is Ok ==> final(self)@ == old(self)@.insert((g, c), task.model()),
            r matches Err(e) ==> e == EuleError::InvalidInterval && final(self)@ == old(self)@,
            intervals_positive(final(self)@),
    {
        proof {
            use_type_invariant(&*self);
            lemma_intervals_positive(self.entries@);
        }
        if task.interval.is_zero() {
            return Err(EuleError::InvalidInterval);
        }
        let entry = JobEntry { guild_id: g, channel_id: c, task };
        let found = self.find(g, c);
        let mut entries: Vec<JobEntry> = Vec::new();
        std::mem::swap(&mut entries, &mut self.entries);
        let ghost before = entries@;
        match found {
            Some(i) => {
                entries.set(i, entry);
                proof {
                    lemma_jobs_of_update(before, i as int, entry);
                    assert forall|a: int, b: int|
                        0 <= a < entries@.len() && 0 <= b < entries@.len() && a != b implies key_of(
                        entries@[a],
                    ) != key_of(entries@[b]) by {
                        assert(key_of(entries@[a]) == key_of(before[a]));
                        assert(key_of(entries@[b]) == key_of(before[b]));
                    }
                }
            },
            None => {
                proof { lemma_jobs_of_index(before); }
                entries.push(entry);
                proof {
                    assert(entries@.drop_last() =~= before);
                    assert forall|a: int, b: int|
                        0 <= a < entries@.len() && 0 <= b < entries@.len() && a != b implies key_of(
                        entries@[a],
                    ) != key_of(entries@[b]) by {
                        if a < before.len() {
                            assert(entries@[a] == before[a]);
                        }
                        if b < before.len() {
                            assert(entries@[b] == before[b]);
                        }
                    }
                }
            },
        }
        self.entries = entries;
        Ok(())
    }

    /// Removes the job for (g, c); true iff there was one.
    pub fn remove(&mut self, g: u64, c: u64) -> (r: bool)
        ensures
            r == old(self)@.contains_key((g, c)),
            final(self)@ == old(self)@.remove((g, c)),
            intervals_positive(final(self)@),
    {
        proof {
            use_type_invariant(&*self);
            lemma_intervals_positive(self.entries@);
        }
        match self.find(g, c) {
            Some(i) => {
                let mut entries: Vec<JobEntry> = Vec::new();
                std::mem::swap(&mut entries, &mut self.entries);
                let ghost before = entries@;
                proof {
                    lemma_jobs_of_index(before);
                    lemma_jobs_of_remove(before, i as int);
                }
                entries.remove(i);
                self.entries = entries;
                true
            },
            None => {
                proof {
                    assert(self@.remove((g, c)) =~= self@);
                }
                false
            },
        }
    }

    /// The number of jobs of workspace `g`.
    pub fn count(&self, g: u64) -> (r: usize)
        ensures
            r == guild_count(self@, g),
            self@.dom().finite(),
    {
        proof { use_type_invariant(self); }
        let ghost s = self.entries@;
        let mut n: usize = 0;
        let mut i: usize = 0;
        proof {
            assert(s.take(0) =~= Seq::<JobEntry>::empty());
            assert(jobs_of(s.take(0)).dom().filter(in_guild(g)) =~= Set::empty());
        }
        while i < self.entries.len()
            invariant
                s == self.entries@,
                unique_keys(s),
                i <= s.len(),
                n <= i,
                n == guild_count(jobs_of(s.take(i as int)), g),
            decreases s.len() - i,
        {
            proof {
                let t = s.take(i as int);
                assert(unique_keys(t));
                assert(s.take(i + 1).drop_last() =~= t);
                lemma_jobs_of_finite(t);
                lemma_jobs_of_index(t);
                if jobs_of(t).contains_key(key_of(s[i as int])) {
                    let j = choose|j: int| 0 <= j < t.len() && key_of(t[j]) == key_of(s[i as int]);
                    assert(t[j] == s[j]);
                }
                lemma_guild_count_insert(jobs_of(t), key_of(s[i as int]), s[i as int].task.model(), g);
            }
            if self.entries[i].guild_id == g {
                n += 1;
            }
            i += 1;
        }
        proof {
            assert(s.take(s.len() as int) =~= s);
            lemma_jobs_of_finite(s);
        }
        n
    }

    /// The channels of workspace `g` with their intervals, one pair per job.
    pub fn list(&self, g: u64) -> (r: Vec<(u64, TimeSpan)>)
        ensures
            forall|i: int|
                0 <= i < r@.len() ==> #[trigger] self@.contains_key((g, r@[i].0)) && self@[(
                g,
                r@[i].0,
            )].0 == r@[i].1@,
            forall|c: u64|
                #[trigger] self@.contains_key((g, c)) ==> exists|i: int|
                    0 <= i < r@.len() && r@[i].0 == c,
            forall|i: int, j: int| 0 <= i < j < r@.len() ==> r@[i].0 != r@[j].0,
    {
        proof { use_type_invariant(self); }
        let ghost s = self.entries@;
        let ghost mut idx: Seq<int> = Seq::empty();
        let mut out: Vec<(u64, TimeSpan)> = Vec::new();
        let mut i: usize = 0;
        while i < self.entries.len()
            invariant
                s == self.entries@,
                unique_keys(s),
                i <= s.len(),
                idx.len() == out@.len(),
                forall|a: int|
                    0 <= a < idx.len() ==> 0 <= #[trigger] idx[a] < i && s[idx[a]].guild_id == g
                        && out@[a].0 == s[idx[a]].channel_id && out@[a].1@
                        == s[idx[a]].task.interval@,
                forall|j: int|
                    0 <= j < i && #[trigger] s[j].guild_id == g ==> exists|a: int|
                        0 <= a < idx.len() && idx[a] == j,
                forall|a: int, b: int| 0 <= a < b < out@.len() ==> out@[a].0 != out@[b].0,
            decreases s.len() - i,
        {
            let e = self.entries[i];
            let ghost old_idx = idx;
            if e.guild_id == g {
                proof {
                    assert forall|a: int| 0 <= a < out@.len() implies out@[a].0 != e.channel_id by {
                        assert(key_of(s[idx[a]]) != key_of(s[i as int]));
                    }
                }
                let ghost before = out@;
                out.push((e.channel_id, e.task.interval));
                proof {
                    idx = idx.push(i as int);
                    assert forall|a: int| 0 <= a < idx.len() - 1 implies out@[a] == before[a] by {}
                    assert(idx[idx.len() - 1] == i);
                }
            }
            proof {
                assert forall|j: int|
                    0 <= j < i + 1 && #[trigger] s[j].guild_id == g implies exists|a: int|
                        0 <= a < idx.len() && idx[a] == j by {
                    if j == i {
                        assert(idx[idx.len() - 1] == j);
                    } else {
                        let a = choose|a: int| 0 <= a < old_idx.len() && old_idx[a] == j;
                        assert(idx[a] == old_idx[a]);
                    }
                }
            }
            i += 1;
        }
        proof {
            lemma_jobs_of_index(s);
            assert forall|a: int| 0 <= a < out@.len() implies #[trigger] self@.contains_key(
                (g, out@[a].0),
            ) && self@[(g, out@[a].0)].0 == out@[a].1@ by {
                assert(key_of(s[idx[a]]) == (g, out@[a].0));
                assert(jobs_of(s).contains_key(key_of(s[idx[a]])));
            }
            assert forall|c: u64| #[trigger] self@.contains_key((g, c)) implies exists|a: int|
                0 <= a < out@.len() && out@[a].0 == c by {
                let j = choose|j: int| 0 <= j < s.len() && key_of(s[j]) == (g, c);
                assert(s[j].guild_id == g);
                let a = choose|a: int| 0 <= a < idx.len() && idx[a] == j;
                assert(out@[a].0 == c);
            }
        }
        out
    }
    /// The pairs of the jobs that are due at `now`, each once.
    pub fn due(&self, now: &SerializableInstant) -> (r: Vec<(u64, u64)>)
        ensures
            forall|i: int|
                0 <= i < r@.len() ==> #[trigger] self@.contains_key(r@[i]) && is_due(
                    self@[r@[i]],
                    now@,
                ),
            forall|k: (u64, u64)|
                #[trigger] self@.contains_key(k) && is_due(self@[k], now@) ==> exists|i: int|
                    0 <= i < r@.len() && r@[i] == k,
            forall|i: int, j: int| 0 <= i < j < r@.len() ==> r@[i] != r@[j],
    {
        proof { use_type_invariant(self); }
        let ghost s = self.entries@;
        let ghost mut idx: Seq<int> = Seq::empty();
        let mut out: Vec<(u64, u64)> = Vec::new();
        let mut i: usize = 0;
        while i < self.entries.len()
            invariant
                s == self.entries@,
                unique_keys(s),
                i <= s.len(),
                idx.len() == out@.len(),
                forall|a: int|
                    0 <= a < idx.len() ==> 0 <= #[trigger] idx[a] < i && is_due(
                        s[idx[a]].task.model(),
                        now@,
                    ) && out@[a] == key_of(s[idx[a]]),
                forall|j: int|
                    0 <= j < i && is_due(#[trigger] s[j].task.model(), now@) ==> exists|a: int|
                        0 <= a < idx.len() && idx[a] == j,
                forall|a: int, b: int| 0 <= a < b < out@.len() ==> out@[a] != out@[b],
            decreases s.len() - i,
        {
            let e = self.entries[i];
            let ghost old_idx = idx;
            if e.task.is_due_at(now) {
                proof {
                    assert forall|a: int| 0 <= a < out@.len() implies out@[a] != key_of(e) by {
                        assert(key_of(s[idx[a]]) != key_of(s[i as int]));
                    }
                }
                let ghost before = out@;
                out.push((e.guild_id, e.channel_id));
                proof {
                    idx = idx.push(i as int);
                    assert forall|a: int| 0 <= a < idx.len() - 1 implies out@[a] == before[a] by {}
                    assert(idx[idx.len() - 1] == i);
                }
            }
            proof {
                assert forall|j: int|
                    0 <= j < i + 1 && is_due(#[trigger] s[j].task.model(), now@) implies exists|a: int|
                        0 <= a < idx.len() && idx[a] == j by {
                    if j == i {
                        assert(idx[idx.len() - 1] == j);
                    } else {
                        let a = choose|a: int| 0 <= a < old_idx.len() && old_idx[a] == j;
                        assert(idx[a] == old_idx[a]);
                    }
                }
            }
            i += 1;
        }
        proof {
            lemma_jobs_of_index(s);
            assert forall|a: int| 0 <= a < out@.len() implies #[trigger] self@.contains_key(out@[a])
                && is_due(self@[out@[a]], now@) by {
                assert(jobs_of(s).contains_key(key_of(s[idx[a]])));
            }
            assert forall|k: (u64, u64)| #[trigger] self@.contains_key(k) && is_due(self@[k], now@) implies exists|a: int|
                0 <= a < out@.len() && out@[a] == k by {
                let j = choose|j: int| 0 <= j < s.len() && key_of(s[j]) == k;
                assert(jobs_of(s).contains_key(key_of(s[j])));
                let a = choose|a: int| 0 <= a < idx.len() && idx[a] == j;
                assert(out@[a] == k);
            }
        }
        out
    }

    /// Records that the job for (g, c) completed at `now`; false, with
    /// nothing changed, when there is no such job.
    pub fn mark_run(&mut self, g: u64, c: u64, now: SerializableInstant) -> (r: bool)
        ensures
            r == old(self)@.contains_key((g, c)),
            r ==> final(self)@ == old(self)@.insert((g, c), (old(self)@[(g, c)].0, now@)),
            !r ==> final(self)@ == old(self)@,
            intervals_positive(final(self)@),
    {
        proof {
            use_type_invariant(&*self);
            lemma_intervals_positive(self.entries@);
        }
        match self.find(g, c) {
            Some(i) => {
                let mut entries: Vec<JobEntry> = Vec::new();
                std::mem::swap(&mut entries, &mut self.entries);
                let ghost before = entries@;
                let old_entry = entries[i];
                let entry = JobEntry {
                    guild_id: g,
                    channel_id: c,
                    task: CleanupTask { interval: old_entry.task.interval, last_cleanup: now },
                };
                entries.set(i, entry);
                proof {
                    lemma_jobs_of_index(before);
                    assert(jobs_of(before).contains_key(key_of(before[i as int])));
                    lemma_jobs_of_update(before, i as int, entry);
                    assert forall|a: int, b: int|
                        0 <= a < entries@.len() && 0 <= b < entries@.len() && a != b implies key_of(
                        entries@[a],
                    ) != key_of(entries@[b]) by {
                        assert(key_of(entries@[a]) == key_of(before[a]));
                        assert(key_of(entries@[b]) == key_of(before[b]));
                    }
                    assert forall|a: int| 0 <= a < entries@.len() implies #[trigger] entries@[a].task.interval@ > 0 by {
                        assert(before[a].task.interval@ > 0);
                    }
                }
                self.entries = entries;
                true
            },
            None => false,
        }
    }

    /// The jobs as snapshot records, each job once.
    pub fn to_records(&self) -> (r: Vec<TaskRecord>)
        ensures
            lists_jobs(r@, self@),
            records_valid(r@),
    {
        proof { use_type_invariant(self); }
        let ghost s = self.entries@;
        let mut out: Vec<TaskRecord> = Vec::new();
        let mut i: usize = 0;
        while i < self.entries.len()
            invariant
                s == self.entries@,
                unique_keys(s),
                forall|j: int| 0 <= j < s.len() ==> #[trigger] s[j].task.interval@ > 0,
                i <= s.len(),
                out@.len() == i,
                forall|j: int|
                    0 <= j < i ==> record_key(#[trigger] out@[j]) == key_of(s[j]) && record_job(
                        out@[j],
                    ) == s[j].task.model() && record_valid(out@[j]),
            decreases s.len() - i,
        {
            let e = self.entries[i];
            let rec: TaskRecord = (
                e.guild_id,
                e.channel_id,
                e.task.interval.as_secs(),
                e.task.interval.subsec_nanos(),
                e.task.last_cleanup.secs(),
                e.task.last_cleanup.subsec_nanos(),
            );
            proof {
                vstd::arithmetic::div_mod::lemma_fundamental_div_mod(e.task.interval@ as int, 1_000_000_000);
                vstd::arithmetic::div_mod::lemma_fundamental_div_mod(e.task.last_cleanup@ as int, 1_000_000_000);
                assert(record_job(rec) == e.task.model());
                assert(s[i as int].task.interval@ > 0);
            }
            out.push(rec);
            i += 1;
        }
        proof {
            lemma_jobs_of_index(s);
            assert forall|k: (u64, u64)| #[trigger] self@.contains_key(k) implies exists|j: int|
                0 <= j < out@.len() && record_key(out@[j]) == k by {
                let j = choose|j: int| 0 <= j < s.len() && key_of(s[j]) == k;
                assert(record_key(out@[j]) == k);
            }
            assert forall|j: int| 0 <= j < out@.len() implies #[trigger] self@.contains_key(
                record_key(out@[j]),
            ) && self@[record_key(out@[j])] == record_job(out@[j]) by {
                assert(jobs_of(s).contains_key(key_of(s[j])));
            }
            assert forall|a: int, b: int|
                0 <= a < out@.len() && 0 <= b < out@.len() && a != b implies record_key(out@[a])
                != record_key(out@[b]) by {
                assert(record_key(out@[a]) == key_of(s[a]));
                assert(record_key(out@[b]) == key_of(s[b]));
            }
        }
        out
    }

    /// Rebuilds a registry from snapshot records, a later record overriding
    /// an earlier one for the same pair. Fails, naming the problem, when a
    /// record holds a sub-second part of a second or more, or a zero
    /// interval.
    pub fn from_records(rs: &Vec<TaskRecord>) -> (r: Result<TaskRegistry, EuleError>)
        ensures
            r is Ok <==> records_valid(rs@),
            r matches Ok(reg) ==> reg@ == jobs_of_records(rs@) && intervals_positive(reg@),
            r matches Err(e) ==> e is Serialization,
    {
        let mut reg = TaskRegistry::new();
        let mut i: usize = 0;
        while i < rs.len()
            invariant
                i <= rs@.len(),
                reg@ == jobs_of_records(rs@.take(i as int)),
                intervals_positive(reg@),
                forall|j: int| 0 <= j < i ==> record_valid(#[trigger] rs@[j]),
            decreases rs@.len() - i,
        {
            let rec = rs[i];
            if rec.3 >= NANOS_PER_SEC || rec.5 >= NANOS_PER_SEC || (rec.2 == 0 && rec.3 == 0) {
                return Err(EuleError::Serialization("snapshot record out of range".to_owned()));
            }
            let interval = TimeSpan::from_parts(rec.2, rec.3);
            let last = SerializableInstant::from_parts(rec.4, rec.5);
            let res = reg.insert(rec.0, rec.1, CleanupTask::new_at(interval, last));
            proof {
                assert(rs@.take(i + 1).drop_last() =~= rs@.take(i as int));
                assert(rs@.take(i + 1).last() == rec);
            }
            i += 1;
        }
        proof { assert(rs@.take(rs@.len() as int) =~= rs@); }
        Ok(reg)
    }
}

} // verus!
