//! Job records: status lifecycle, progress counters and crash recovery.

use vstd::prelude::*;

verus! {

/// Status of an enrichment job.
///
/// Intermediate states carry a free-form display label; the two terminal
/// states are distinguished structurally so that terminal-state checks do
/// not depend on string comparisons.
#[derive(Debug, Clone, PartialEq, Eq)]
pub enum JobStatus {
    Pending,
    InProgress(String),
    Completed,
    Failed,
}

/// True of the two states a job can never leave.
pub open spec fn is_terminal(s: JobStatus) -> bool {
    s is Completed || s is Failed
}

/// One enrichment run for one user.
///
/// Timestamps are Unix epoch milliseconds; `completed_at` is `None` until
/// the job reaches a terminal status.
#[derive(Debug, Clone, PartialEq, Eq)]
pub struct UserJob {
    pub id: u64,
    pub user_id: u64,
    pub status: JobStatus,
    pub total_repos: u32,
    pub processed_repos: u32,
    pub failed_repos: u32,
    pub created_at: i64,
    pub updated_at: i64,
    pub completed_at: Option<i64>,
}

impl UserJob {
    /// Structural invariant: processed and failed counts never exceed the
    /// total, and a completion timestamp exists exactly in terminal states.
    pub open spec fn wf(self) -> bool {
        &&& self.processed_repos + self.failed_repos <= self.total_repos
        &&& self.completed_at is Some <==> is_terminal(self.status)
    }

    /// A freshly created job record: pending, with zeroed counters.
    pub fn new_pending(id: u64, user_id: u64, now: i64) -> (r: UserJob)
        ensures
            r.wf(),
            r.id == id,
            r.user_id == user_id,
            r.status is Pending,
            r.total_repos == 0,
            r.processed_repos == 0,
            r.failed_repos == 0,
            r.created_at == now,
            r.updated_at == now,
            r.completed_at is None,
    {
        UserJob {
            id,
            user_id,
            status: JobStatus::Pending,
            total_repos: 0,
            processed_repos: 0,
            failed_repos: 0,
            created_at: now,
            updated_at: now,
            completed_at: None,
        }
    }

    /// True when the job has reached a terminal status.
    pub fn is_completed(&self) -> (r: bool)
        ensures
            r == is_terminal(self.status),
    {
        match self.status {
            JobStatus::Completed => true,
            JobStatus::Failed => true,
            _ => false,
        }
    }

    /// True while the job carries an in-progress label.
    pub fn is_processing(&self) -> (r: bool)
        ensures
            r == (self.status is InProgress),
    {
        match self.status {
            JobStatus::InProgress(_) => true,
            _ => false,
        }
    }

    /// True before the pipeline has started work on the job.
    pub fn is_pending(&self) -> (r: bool)
        ensures
            r == (self.status is Pending),
    {
        match self.status {
            JobStatus::Pending => true,
            _ => false,
        }
    }

    /// Percentage of items that did not fail, rounded down; zero when the
    /// total is unknown.
    pub fn success_rate(&self) -> (r: u32)
        requires
            self.wf(),
        ensures
            r == if self.total_repos == 0 {
                0int
            } else {
                (self.total_repos - self.failed_repos) * 100 / (self.total_repos as int)
            },
    {
        if self.total_repos == 0 {
            0
        } else {
            let successful: u64 = (self.total_repos - self.failed_repos) as u64;
            proof {
                assert((successful as int * 100) / (self.total_repos as int) <= 100)
                    by (nonlinear_arith)
                    requires
                        0 < self.total_repos as int,
                        successful as int <= self.total_repos as int,
                ;
            }
            ((successful * 100) / (self.total_repos as u64)) as u32
        }
    }

    /// Percentage of items already processed, rounded down; zero when the
    /// total is unknown.
    pub fn completion_percentage(&self) -> (r: u32)
        requires
            self.wf(),
        ensures
            r == if self.total_repos == 0 {
                0int
            } else {
                (self.processed_repos as int) * 100 / (self.total_repos as int)
            },
    {
        if self.total_repos == 0 {
            0
        } else {
            let processed: u64 = self.processed_repos as u64;
            proof {
                assert((processed as int * 100) / (self.total_repos as int) <= 100)
                    by (nonlinear_arith)
                    requires
                        0 < self.total_repos as int,
                        processed as int <= self.total_repos as int,
                ;
            }
            ((processed * 100) / (self.total_repos as u64)) as u32
        }
    }

    /// A field-for-field copy of the record.
    pub fn duplicate(&self) -> (r: UserJob)
        ensures
            r == *self,
    {
        let status = match &self.status {
            JobStatus::Pending => JobStatus::Pending,
            JobStatus::InProgress(label) => JobStatus::InProgress(label.clone()),
            JobStatus::Completed => JobStatus::Completed,
            JobStatus::Failed => JobStatus::Failed,
        };
        UserJob {
            id: self.id,
            user_id: self.user_id,
            status,
            total_repos: self.total_repos,
            processed_repos: self.processed_repos,
            failed_repos: self.failed_repos,
            created_at: self.created_at,
            updated_at: self.updated_at,
            completed_at: self.completed_at,
        }
    }

    /// The record after an in-progress status update.
    pub fn with_status(self, label: String, now: i64) -> (r: UserJob)
        requires
            self.wf(),
            !is_terminal(self.status),
        ensures
            r.wf(),
            r == (UserJob { status: JobStatus::InProgress(label), updated_at: now, ..self }),
    {
        UserJob { status: JobStatus::InProgress(label), updated_at: now, ..self }
    }

    /// The record after a progress checkpoint.
    pub fn with_progress(self, total: u32, processed: u32, failed: u32, now: i64) -> (r: UserJob)
        requires
            self.wf(),
            processed + failed <= total,
        ensures
            r.wf(),
            r == (UserJob {
                total_repos: total,
                processed_repos: processed,
                failed_repos: failed,
                updated_at: now,
                ..self
            }),
    {
        UserJob {
            total_repos: total,
            processed_repos: processed,
            failed_repos: failed,
            updated_at: now,
            ..self
        }
    }

    /// The record after a successful run: terminal `Completed`, with the
    /// completion timestamp set and counters untouched.
    pub fn into_completed(self, now: i64) -> (r: UserJob)
        requires
            self.wf(),
        ensures
            r.wf(),
            r == (UserJob {
                status: JobStatus::Completed,
                updated_at: now,
                completed_at: Some(now),
                ..self
            }),
    {
        UserJob {
            status: JobStatus::Completed,
            updated_at: now,
            completed_at: Some(now),
            ..self
        }
    }

    /// The record after an aborted or interrupted run: terminal `Failed`,
    /// with the completion timestamp set and counters untouched.
    pub fn into_failed(self, now: i64) -> (r: UserJob)
        requires
            self.wf(),
        ensures
            r.wf(),
            r == (UserJob {
                status: JobStatus::Failed,
                updated_at: now,
                completed_at: Some(now),
                ..self
            }),
    {
        UserJob {
            status: JobStatus::Failed,
            updated_at: now,
            completed_at: Some(now),
            ..self
        }
    }
}

/// The ids of the non-terminal jobs of `jobs`, in order.
pub open spec fn orphan_ids(jobs: Seq<UserJob>) -> Seq<u64>
    decreases jobs.len(),
{
    if jobs.len() == 0 {
        Seq::empty()
    } else {
        let rest = orphan_ids(jobs.drop_last());
        if !is_terminal(jobs.last().status) {
            rest.push(jobs.last().id)
        } else {
            rest
        }
    }
}

/// The ids of every job in `jobs` that is not in a terminal status.
///
/// At process startup these are the orphans a prior instance left behind:
/// with the in-memory registry gone, a non-terminal stored status is the
/// sole signal of an interrupted run.
pub fn orphaned_job_ids(jobs: &Vec<UserJob>) -> (r: Vec<u64>)
    ensures
        r@ == orphan_ids(jobs@),
{
    let mut r: Vec<u64> = Vec::new();
    let mut i: usize = 0;
    while i < jobs.len()
        invariant
            i <= jobs@.len(),
            r@ == orphan_ids(jobs@.take(i as int)),
        decreases jobs@.len() - i,
    {
        if !jobs[i].is_completed() {
            r.push(jobs[i].id);
        }
        proof {
            let next = jobs@.take(i + 1);
            assert(next.drop_last() =~= jobs@.take(i as int));
            assert(next.last() == jobs@[i as int]);
        }
        i += 1;
    }
    proof {
        assert(jobs@.take(jobs@.len() as int) =~= jobs@);
    }
    r
}

/// Crash recovery over a stored job list: every non-terminal job is marked
/// `Failed` with its completion timestamp set to `now`; terminal jobs are
/// returned unchanged.
pub fn recover_orphans(jobs: Vec<UserJob>, now: i64) -> (r: Vec<UserJob>)
    requires
        forall|i: int| 0 <= i < jobs@.len() ==> (#[trigger] jobs@[i]).wf(),
    ensures
        r@.len() == jobs@.len(),
        forall|i: int| 0 <= i < jobs@.len() && is_terminal(jobs@[i].status)
            ==> #[trigger] r@[i] == jobs@[i],
        forall|i: int| 0 <= i < jobs@.len() && !is_terminal(jobs@[i].status)
            ==> #[trigger] r@[i] == jobs@[i].into_failed_spec(now),
        forall|i: int| 0 <= i < r@.len() ==> is_terminal((#[trigger] r@[i]).status),
        forall|i: int| 0 <= i < r@.len() ==> (#[trigger] r@[i]).wf(),
{
    let mut r: Vec<UserJob> = Vec::new();
    let mut i: usize = 0;
    while i < jobs.len()
        invariant
            i <= jobs@.len(),
            r@.len() == i,
            forall|k: int| 0 <= k < jobs@.len() ==> (#[trigger] jobs@[k]).wf(),
            forall|k: int| 0 <= k < i && is_terminal(jobs@[k].status)
                ==> #[trigger] r@[k] == jobs@[k],
            forall|k: int| 0 <= k < i && !is_terminal(jobs@[k].status)
                ==> #[trigger] r@[k] == jobs@[k].into_failed_spec(now),
            forall|k: int| 0 <= k < i ==> is_terminal((#[trigger] r@[k]).status),
            forall|k: int| 0 <= k < i ==> (#[trigger] r@[k]).wf(),
        decreases jobs@.len() - i,
    {
        let j = jobs[i].duplicate();
        if j.is_completed() {
            r.push(j);
        } else {
            r.push(j.into_failed(now));
        }
        i += 1;
    }
    r
}

impl UserJob {
    /// What `into_failed` returns, as a spec-level value.
    pub open spec fn into_failed_spec(self, now: i64) -> UserJob {
        UserJob {
            status: JobStatus::Failed,
            updated_at: now,
            completed_at: Some(now),
            ..self
        }
    }
}

} // verus!
