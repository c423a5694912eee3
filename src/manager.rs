//! The scheduler's job book: the registry, checkpointed to the store after
//! every change.

use crate::error::EuleError;
use crate::registry::{guild_count, is_due, jobs_of_records, lists_jobs, records_valid, TaskRecord, TaskRegistry};
use crate::store::KvStore;
use crate::time::{SerializableInstant, TimeSpan};
use std::sync::Arc;
use vstd::prelude::*;

verus! {

/// Declares serde_json's error, carried through as an opaque value.
#[verifier::external_type_specification]
#[verifier::external_body]
pub struct ExJsonError(serde_json::Error);

/// The JSON text that serde_json writes for a list of snapshot records.
pub uninterp spec fn json_of_records(rs: Seq<TaskRecord>) -> Seq<char>;

/// The snapshot records that serde_json reads from `text`, if it parses.
pub uninterp spec fn records_of_json(text: Seq<char>) -> Option<Seq<TaskRecord>>;

/// Relies on serde_json's `to_string` on a vector of integer tuples: it
/// fails only for maps with non-string keys or a failing `Serialize`, so
/// never here; the text depends on the records alone.
#[verifier::external_body]
fn records_to_json(rs: &Vec<TaskRecord>) -> (r: Result<String, serde_json::Error>)
    ensures
        r is Ok,
        r matches Ok(s) ==> s@ == json_of_records(rs@),
{
    serde_json::to_string(rs)
}

/// Relies on serde_json's `from_str` into a vector of integer tuples: the
/// records when the text parses, an error otherwise.
#[verifier::external_body]
fn records_from_json(text: &str) -> (r: Result<Vec<TaskRecord>, serde_json::Error>)
    ensures
        r matches Ok(v) ==> records_of_json(text@) == Some(v@),
        r is Err <==> records_of_json(text@) is None,
{
    serde_json::from_str(text)
}

/// The store key under which the registry snapshot is kept.
pub const TASKS_KEY: &'static str = "cleanup_tasks";

/// The job book: a registry of clean-up jobs and the store that backs it.
pub struct AutocleanManager {
    tasks: TaskRegistry,
    kv_store: Arc<KvStore>,
}

impl AutocleanManager {
    /// The jobs, by (workspace, channel), as (interval, last run) in
    /// nanoseconds.
    pub closed spec fn jobs(&self) -> Map<(u64, u64), (nat, nat)> {
        self.tasks@
    }

    /// A job book with no jobs, backed by `kv_store`.
    pub fn new(kv_store: Arc<KvStore>) -> (r: AutocleanManager)
        ensures
            r.jobs() == Map::<(u64, u64), (nat, nat)>::empty(),
    {
        AutocleanManager { tasks: TaskRegistry::new(), kv_store }
    }

    /// The registry itself.
    pub fn registry(&self) -> (r: &TaskRegistry)
        ensures
            r@ == self.jobs(),
    {
        &self.tasks
    }

    /// Adds (or replaces) the job for (guild_id, channel_id), last run at
    /// `now`, then checkpoints. A zero interval is refused with nothing
    /// changed; otherwise the job stands even if the checkpoint fails.
    pub fn add_task_at(
        &mut self,
        guild_id: u64,
        channel_id: u64,
        interval: TimeSpan,
        now: SerializableInstant,
    ) -> (r: Result<(), EuleError>)
        ensures
            interval@ == 0 ==> r == Err::<(), EuleError>(EuleError::InvalidInterval) 
                && final(self).jobs() == old(self).jobs(),
            interval@ > 0 ==> final(self).jobs() == old(self).jobs().insert(
                (guild_id, channel_id),
                (interval@, now@),
            ),
            interval@ > 0 && r is Err ==> r->Err_0 is Database || r->Err_0 is EncryptionError
                || r->Err_0 is Serialization,
    {
        match self.tasks.insert(guild_id, channel_id, crate::registry::CleanupTask::new_at(interval, now)) {
            Ok(()) => {},
            Err(e) => return Err(e),
        }
        self.save_tasks()
    }

    /// Adds (or replaces) the job for (guild_id, channel_id), last run now,
    /// then checkpoints.
    pub fn add_task(&mut self, guild_id: u64, channel_id: u64, interval: TimeSpan) -> (r: Result<(), EuleError>)
        ensures
            interval@ == 0 ==> r == Err::<(), EuleError>(EuleError::InvalidInterval) 
                && final(self).jobs() == old(self).jobs(),
            interval@ > 0 ==> exists|now: nat|
                final(self).jobs() == old(self).jobs().insert((guild_id, channel_id), (interval@, now)),
            interval@ > 0 && r is Err ==> r->Err_0 is Database || r->Err_0 is EncryptionError
                || r->Err_0 is Serialization,
    {
        let now = SerializableInstant::now();
        self.add_task_at(guild_id, channel_id, interval, now)
    }

    /// Removes the job for (guild_id, channel_id); `Ok(true)` iff there was
    /// one, in which case the change is checkpointed.
    pub fn remove_task(&mut self, guild_id: u64, channel_id: u64) -> (r: Result<bool, EuleError>)
        ensures
            final(self).jobs() == old(self).jobs().remove((guild_id, channel_id)),
            !old(self).jobs().contains_key((guild_id, channel_id)) ==> r == Ok::<bool, EuleError>(false),
            old(self).jobs().contains_key((guild_id, channel_id)) ==> r != Ok::<bool, EuleError>(false),
    {
        let removed = self.tasks.remove(guild_id, channel_id);
        if removed {
            match self.save_tasks() {
                Ok(()) => Ok(true),
                Err(e) => Err(e),
            }
        } else {
            Ok(false)
        }
    }

    /// The channels of workspace `guild_id` with their intervals, one pair
    /// per job.
    pub fn list_tasks(&self, guild_id: u64) -> (r: Vec<(u64, TimeSpan)>)
        ensures
            forall|i: int|
                0 <= i < r@.len() ==> #[trigger] self.jobs().contains_key((guild_id, r@[i].0))
                    && self.jobs()[(guild_id, r@[i].0)].0 == r@[i].1@,
            forall|c: u64|
                #[trigger] self.jobs().contains_key((guild_id, c)) ==> exists|i: int|
                    0 <= i < r@.len() && r@[i].0 == c,
            forall|i: int, j: int| 0 <= i < j < r@.len() ==> r@[i].0 != r@[j].0,
    {
        self.tasks.list(guild_id)
    }

    /// The number of jobs of workspace `guild_id`.
    pub fn task_count(&self, guild_id: u64) -> (r: usize)
        ensures
            r == guild_count(self.jobs(), guild_id),
            self.jobs().dom().finite(),
    {
        self.tasks.count(guild_id)
    }

    /// The pairs of the jobs due at `now`, each once.
    pub fn due_tasks(&self, now: &SerializableInstant) -> (r: Vec<(u64, u64)>)
        ensures
            forall|i: int|
                0 <= i < r@.len() ==> #[trigger] self.jobs().contains_key(r@[i]) && is_due(
                    self.jobs()[r@[i]],
                    now@,
                ),
            forall|k: (u64, u64)|
                #[trigger] self.jobs().contains_key(k) && is_due(self.jobs()[k], now@) ==> exists|i: int|
                    0 <= i < r@.len() && r@[i] == k,
            forall|i: int, j: int| 0 <= i < j < r@.len() ==> r@[i] != r@[j],
    {
        self.tasks.due(now)
    }

    /// Records that the job for (guild_id, channel_id) completed at `now`;
    /// false, with nothing changed, when the job is gone.
    pub fn mark_run(&mut self, guild_id: u64, channel_id: u64, now: SerializableInstant) -> (r: bool)
        ensures
            r == old(self).jobs().contains_key((guild_id, channel_id)),
            r ==> final(self).jobs() == old(self).jobs().insert(
                (guild_id, channel_id),
                (old(self).jobs()[(guild_id, channel_id)].0, now@),
            ),
            !r ==> final(self).jobs() == old(self).jobs(),
    {
        self.tasks.mark_run(guild_id, channel_id, now)
    }

    /// The snapshot text of the registry: the JSON of records that list
    /// every job once.
    pub fn snapshot_text(&self) -> (r: Result<String, EuleError>)
        ensures
            r is Ok,
            r matches Ok(t) ==> exists|rs: Seq<TaskRecord>|
                lists_jobs(rs, self.jobs()) && records_valid(rs) && #[trigger] json_of_records(rs) == t@,
    {
        let records = self.tasks.to_records();
        match records_to_json(&records) {
            Ok(t) => Ok(t),
            Err(e) => Err(EuleError::Serialization(e.to_string())),
        }
    }

    /// Writes the whole registry, as its snapshot text, under the snapshot
    /// key of the store; the registry itself is not changed.
    pub fn save_tasks(&self) -> (r: Result<(), EuleError>)
        ensures
            r matches Err(e) ==> e is Database || e is EncryptionError,
    {
        let text = match self.snapshot_text() {
            Ok(t) => t,
            Err(e) => return Err(e),
        };
        self.kv_store.set(TASKS_KEY, text.as_str())
    }

    /// Rebuilds the registry from snapshot text: the jobs that its records
    /// list, or a serialization error, with nothing changed, when the text
    /// does not parse or a record is out of range.
    pub fn restore_from(&mut self, text: &str) -> (r: Result<(), EuleError>)
        ensures
            r is Ok <==> (records_of_json(text@) matches Some(rs) && records_valid(rs)),
            r is Ok ==> final(self).jobs() == jobs_of_records(records_of_json(text@)->Some_0),
            r is Err ==> final(self).jobs() == old(self).jobs(),
            r matches Err(e) ==> e is Serialization,
    {
        let records = match records_from_json(text) {
            Ok(rs) => rs,
            Err(e) => return Err(EuleError::Serialization(e.to_string())),
        };
        match TaskRegistry::from_records(&records) {
            Ok(reg) => {
                self.tasks = reg;
                Ok(())
            },
            Err(e) => Err(e),
        }
    }

    /// Applies what the store holds under the snapshot key: with no
    /// snapshot nothing changes and the result is `Ok`; a snapshot is
    /// restored as `restore_from` does.
    pub fn apply_snapshot(&mut self, stored: Option<String>) -> (r: Result<(), EuleError>)
        ensures
            stored is None ==> r is Ok && final(self).jobs() == old(self).jobs(),
            stored matches Some(text) ==> (r is Ok <==> (records_of_json(text@) matches Some(rs)
                && records_valid(rs))),
            stored matches Some(text) ==> (r is Ok ==> final(self).jobs() == jobs_of_records(
                records_of_json(text@)->Some_0,
            )),
            r is Err ==> final(self).jobs() == old(self).jobs(),
            r matches Err(e) ==> e is Serialization,
    {
        match stored {
            Some(text) => self.restore_from(text.as_str()),
            None => Ok(()),
        }
    }

    /// Replaces the registry with the last snapshot in the store; with no
    /// snapshot stored, nothing changes.
    pub fn load_tasks(&mut self) -> (r: Result<(), EuleError>)
        ensures
            r is Err ==> final(self).jobs() == old(self).jobs(),
            r is Ok ==> final(self).jobs() == old(self).jobs() || exists|text: Seq<char>|
                #[trigger] records_of_json(text) matches Some(rs) && records_valid(rs)
                    && final(self).jobs() == jobs_of_records(rs),
            r matches Err(e) ==> e is Database || e is DecryptionError || e is Serialization,
    {
        let stored = match self.kv_store.get(TASKS_KEY) {
            Ok(s) => s,
            Err(e) => return Err(e),
        };
        self.apply_snapshot(stored)
    }
}

} // verus!
