//! The job orchestrator: an in-memory registry of running jobs, keyed by
//! user, enforcing at most one active job per user.
//!
//! The registry itself is a concurrent map from the `dashmap` crate, held
//! behind trusted wrappers whose contracts speak of its contents as a
//! [`Map`] from user id to job id.

use vstd::prelude::*;

use dashmap::DashMap;
use std::collections::hash_map::RandomState;

verus! {

#[verifier::external_type_specification]
#[verifier::external_body]
#[verifier::reject_recursive_types(K)]
#[verifier::reject_recursive_types(V)]
#[verifier::reject_recursive_types(S)]
pub struct ExDashMap<K, V, S>(DashMap<K, V, S>);

/// The entries a registry map currently holds, as user id to job id.
pub uninterp spec fn registry_contents(m: DashMap<u64, u64, RandomState>) -> Map<u64, u64>;

/// A registry with no entries.
pub open spec fn empty_registry() -> Map<u64, u64> {
    Map::empty()
}

/// Relies on dashmap::DashMap::with_capacity: creates a map with no
/// entries and room for `capacity` of them.
#[verifier::external_body]
fn registry_with_capacity(capacity: usize) -> (r: DashMap<u64, u64, RandomState>)
    ensures
        registry_contents(r) == empty_registry(),
{
    DashMap::with_capacity(capacity)
}

/// Relies on dashmap::DashMap::contains_key: true exactly when the key has
/// an entry.
#[verifier::external_body]
fn registry_contains(m: &DashMap<u64, u64, RandomState>, key: u64) -> (r: bool)
    ensures
        r == registry_contents(*m).dom().contains(key),
{
    m.contains_key(&key)
}

/// Relies on dashmap::DashMap::insert: maps the key to the value and
/// returns the value it replaced, if any.
#[verifier::external_body]
fn registry_insert(m: &mut DashMap<u64, u64, RandomState>, key: u64, value: u64) -> (prior: Option<
    u64,
>)
    ensures
        registry_contents(*final(m)) == registry_contents(*old(m)).insert(key, value),
        match prior {
            Some(v) => registry_contents(*old(m)).dom().contains(key) && v == registry_contents(
                *old(m),
            )[key],
            None => !registry_contents(*old(m)).dom().contains(key),
        },
{
    m.insert(key, value)
}

/// Relies on dashmap::DashMap::remove: removes the key's entry and returns
/// it, if there was one.
#[verifier::external_body]
fn registry_remove(m: &mut DashMap<u64, u64, RandomState>, key: u64) -> (removed: Option<
    (u64, u64),
>)
    ensures
        registry_contents(*final(m)) == registry_contents(*old(m)).remove(key),
        match removed {
            Some(kv) => registry_contents(*old(m)).dom().contains(key) && kv.0 == key && kv.1
                == registry_contents(*old(m))[key],
            None => !registry_contents(*old(m)).dom().contains(key),
        },
{
    m.remove(&key)
}

/// Relies on dashmap::DashMap::len: the number of entries in the map.
#[verifier::external_body]
fn registry_len(m: &DashMap<u64, u64, RandomState>) -> (n: usize)
    requires
        registry_contents(*m).dom().finite(),
    ensures
        n == registry_contents(*m).dom().len(),
{
    m.len()
}

/// Relies on dashmap::DashMap::iter: yields each entry exactly once, in no
/// promised order.
#[verifier::external_body]
fn registry_keys(m: &DashMap<u64, u64, RandomState>) -> (keys: Vec<u64>)
    ensures
        keys@.to_set() == registry_contents(*m).dom(),
        keys@.no_duplicates(),
{
    m.iter().map(|entry| *entry.key()).collect()
}

/// Errors of job orchestration. Variants that carried an error of an
/// outside crate in the unverified shell carry its message here.
#[derive(Debug, Clone, PartialEq, Eq)]
pub enum JobError {
    JobAlreadyRunning { user_id: u64 },
    JobNotFound { user_id: u64 },
    DatabaseError(String),
    SemanticSearchManagerError(String),
    GitHubError(String),
    TaskJoinError(String),
}

/// A start request for `user_id` is admissible exactly when the registry
/// holds no entry for that user.
pub open spec fn start_allowed(entries: Map<u64, u64>, user_id: u64) -> bool {
    !entries.dom().contains(user_id)
}

/// JobManager tracks the jobs currently running in this process, one per
/// user at most. Durable job records live with the storage layer; the
/// manager owns only the process-local exclusion state.
#[derive(Debug)]
pub struct JobManager {
    active_jobs: DashMap<u64, u64, RandomState>,
}

impl View for JobManager {
    type V = Map<u64, u64>;

    closed spec fn view(&self) -> Map<u64, u64> {
        registry_contents(self.active_jobs)
    }
}

impl JobManager {
    /// The registry contents: user id to job id of each running job.
    pub open spec fn entries(self) -> Map<u64, u64> {
        self.view()
    }

    /// Validity: the registry holds finitely many entries.
    pub open spec fn wf(self) -> bool {
        self.entries().dom().finite()
    }

    /// Create a manager with no active jobs.
    pub fn new() -> (r: JobManager)
        ensures
            r.wf(),
            r@ == Map::<u64, u64>::empty(),
    {
        JobManager { active_jobs: registry_with_capacity(0) }
    }

    /// Register a newly created job for `user_id`.
    ///
    /// Callers create the durable job record first and pass its id; the
    /// registration succeeds exactly when no job is already running for the
    /// user, so a record is never registered twice concurrently.
    pub fn start_job(&mut self, user_id: u64, job_id: u64) -> (r: Result<u64, JobError>)
        requires
            old(self).wf(),
        ensures
            final(self).wf(),
            match r {
                Ok(j) => start_allowed(old(self).entries(), user_id) && j == job_id
                    && final(self).entries() == old(self).entries().insert(user_id, job_id),
                Err(e) => !start_allowed(old(self).entries(), user_id) && final(self).entries()
                    == old(self).entries() && e == (JobError::JobAlreadyRunning { user_id }),
            },
    {
        if registry_contains(&self.active_jobs, user_id) {
            return Err(JobError::JobAlreadyRunning { user_id });
        }
        registry_insert(&mut self.active_jobs, user_id, job_id);
        Ok(job_id)
    }

    /// Drop the registry entry when the user's pipeline task ends, however
    /// it ended. After this, a new start request for the user is admissible.
    pub fn finish_job(&mut self, user_id: u64)
        requires
            old(self).wf(),
        ensures
            final(self).wf(),
            final(self).entries() == old(self).entries().remove(user_id),
            start_allowed(final(self).entries(), user_id),
    {
        registry_remove(&mut self.active_jobs, user_id);
    }

    /// Stop the running job of `user_id`: remove its registry entry and
    /// hand back the job id so the caller can cancel the task and mark the
    /// durable record failed. Fails when no job is running for the user.
    pub fn stop_job(&mut self, user_id: u64) -> (r: Result<u64, JobError>)
        requires
            old(self).wf(),
        ensures
            final(self).wf(),
            match r {
                Ok(job_id) => old(self).entries().dom().contains(user_id)
                    && job_id == old(self).entries()[user_id]
                    && final(self).entries() == old(self).entries().remove(user_id),
                Err(e) => !old(self).entries().dom().contains(user_id) && final(self).entries()
                    == old(self).entries() && e == (JobError::JobNotFound { user_id }),
            },
    {
        match registry_remove(&mut self.active_jobs, user_id) {
            Some((_, job_id)) => Ok(job_id),
            None => {
                proof {
                    assert(old(self).entries().remove(user_id) =~= old(self).entries());
                }
                Err(JobError::JobNotFound { user_id })
            },
        }
    }

    /// O(1) registry membership check; touches no storage.
    pub fn is_job_running(&self, user_id: u64) -> (r: bool)
        ensures
            r == self.entries().dom().contains(user_id),
    {
        registry_contains(&self.active_jobs, user_id)
    }

    /// The number of jobs currently running in this process.
    pub fn active_job_count(&self) -> (n: usize)
        requires
            self.wf(),
        ensures
            n == self.entries().dom().len(),
    {
        registry_len(&self.active_jobs)
    }

    /// The user ids of all currently running jobs, each exactly once, in no
    /// promised order.
    pub fn list_active_jobs(&self) -> (users: Vec<u64>)
        ensures
            users@.to_set() == self.entries().dom(),
            users@.no_duplicates(),
    {
        registry_keys(&self.active_jobs)
    }
}

/// Law: at most one job per user. Starting a job for a user who has none is
/// admissible; while that registration stands, a second start for the same
/// user is refused; once the entry is removed — the task finished or was
/// stopped — a new start is admissible again.
pub proof fn lemma_single_job_per_user(entries: Map<u64, u64>, user_id: u64, job_id: u64)
    requires
        start_allowed(entries, user_id),
    ensures
        !start_allowed(entries.insert(user_id, job_id), user_id),
        start_allowed(entries.insert(user_id, job_id).remove(user_id), user_id),
{
}

} // verus!
