//! The job repository: job rows and idempotency-key rows, with the
//! aggregate resource-usage query consulted by admission control.

use vstd::prelude::*;
use vstd::string::*;
use crate::models::job::{Job, JobStatus};
use crate::text::{sat_add_i64, str_eq};
use crate::{cap_i32, valid_now};

verus! {

/// Maps a caller-supplied client job id to exactly one job. At most one
/// mapping per client id is active at a time.
#[derive(Debug)]
pub struct IdempotencyKey {
    pub client_job_id: String,
    pub job_id: String,
    pub active: bool,
}

impl Clone for IdempotencyKey {
    fn clone(&self) -> (r: Self)
        ensures
            r == *self,
    {
        IdempotencyKey {
            client_job_id: self.client_job_id.clone(),
            job_id: self.job_id.clone(),
            active: self.active,
        }
    }
}

/// CPU, memory and job count currently committed to admitted work; derived
/// on demand from the jobs that are starting or running, never cached.
#[derive(Clone, Copy, Debug, PartialEq, Eq, Structural)]
pub struct ResourceUsage {
    pub used_cpus: i32,
    pub used_memory_gb: i32,
    pub running_jobs: i32,
}

/// A write was rejected because it would duplicate a primary key: a job id,
/// or the client id of an active idempotency mapping.
#[derive(Clone, Copy, Debug, PartialEq, Eq, Structural)]
pub enum StoreError {
    Conflict,
}

/// Whether a job counts toward cluster resource usage: exactly the jobs
/// that have been admitted and not yet finished (starting or running).
pub open spec fn counts_toward_usage(j: Job) -> bool {
    j.status is Starting || j.status is Running
}

/// Whether a job is active for reconciliation purposes: admitted or queued,
/// not yet in any terminal or cleanup state.
pub open spec fn is_active(j: Job) -> bool {
    j.status is Pending || j.status is Starting || j.status is Running
}

/// Total CPUs reserved by jobs that count toward usage.
pub open spec fn sum_used_cpus(jobs: Seq<Job>) -> int
    decreases jobs.len(),
{
    if jobs.len() == 0 {
        0
    } else {
        sum_used_cpus(jobs.drop_last()) + if counts_toward_usage(jobs.last()) {
            jobs.last().cpus as int
        } else {
            0
        }
    }
}

/// Total memory (GB) reserved by jobs that count toward usage.
pub open spec fn sum_used_memory(jobs: Seq<Job>) -> int
    decreases jobs.len(),
{
    if jobs.len() == 0 {
        0
    } else {
        sum_used_memory(jobs.drop_last()) + if counts_toward_usage(jobs.last()) {
            jobs.last().memory_gb as int
        } else {
            0
        }
    }
}

/// How many jobs count toward usage.
pub open spec fn count_usage_jobs(jobs: Seq<Job>) -> int
    decreases jobs.len(),
{
    if jobs.len() == 0 {
        0
    } else {
        count_usage_jobs(jobs.drop_last()) + if counts_toward_usage(jobs.last()) {
            1int
        } else {
            0
        }
    }
}

/// What `create` persists of a requested job: the row as given, with the
/// runtime fields and the later timestamps still unset.
pub open spec fn stored_job(job: Job) -> Job {
    Job {
        container_id: None,
        exit_code: None,
        error: None,
        started_at: None,
        completed_at: None,
        ..job
    }
}

/// A status update also stamps the lifecycle timestamps: entering `Running`
/// sets `started_at`; entering a terminal status sets `completed_at`.
pub open spec fn with_status(job: Job, status: JobStatus, now: i64) -> Job {
    Job {
        status: status,
        started_at: if status is Running {
            Some(now)
        } else {
            job.started_at
        },
        completed_at: if status.spec_is_terminal() {
            Some(now)
        } else {
            job.completed_at
        },
        ..job
    }
}

/// Non-negativity of the usage aggregates over model-valid jobs.
pub proof fn lemma_usage_sums_nonneg(jobs: Seq<Job>)
    requires
        forall|i: int| 0 <= i < jobs.len() ==> (#[trigger] jobs[i]).wf(),
    ensures
        sum_used_cpus(jobs) >= 0,
        sum_used_memory(jobs) >= 0,
        count_usage_jobs(jobs) >= 0,
    decreases jobs.len(),
{
    if jobs.len() > 0 {
        assert(jobs[jobs.len() - 1].wf());
        assert(forall|i: int|
            0 <= i < jobs.drop_last().len() ==> (#[trigger] jobs.drop_last()[i]).wf());
        lemma_usage_sums_nonneg(jobs.drop_last());
    }
}

/// The predicate `get_active_jobs` selects with.
pub open spec fn active_pred() -> spec_fn(Job) -> bool {
    |j: Job| is_active(j)
}

/// The predicate `list` selects with: every job, or the jobs whose status
/// has the given storage name.
pub open spec fn list_pred(filter: Option<Seq<char>>) -> spec_fn(Job) -> bool {
    |j: Job|
        match filter {
            None => true,
            Some(f) => j.status.status_str() == f,
        }
}

/// The view of an optional status-filter string.
pub open spec fn filter_view(status_filter: Option<&str>) -> Option<Seq<char>> {
    match status_filter {
        Some(f) => Some(f@),
        None => None,
    }
}

/// Newest first: creation times never increase along the sequence.
pub open spec fn sorted_newest_first(s: Seq<Job>) -> bool {
    forall|i: int, j: int| 0 <= i < j < s.len() ==> s[i].created_at >= s[j].created_at
}

/// What a status update leaves behind, for any wall-clock reading `now`.
pub open spec fn update_status_post(
    pre: JobRepository,
    post: JobRepository,
    id: Seq<char>,
    status: JobStatus,
    now: i64,
) -> bool {
    &&& post.idempotency_keys@ == pre.idempotency_keys@
    &&& (pre.has_job(id) ==> post.jobs@ == pre.jobs@.update(
        pre.job_idx(id),
        with_status(pre.job_of(id), status, now),
    ))
    &&& (!pre.has_job(id) ==> post.jobs@ == pre.jobs@)
}

/// The durable job state: job rows and idempotency-key rows.
#[derive(Debug)]
pub struct JobRepository {
    pub jobs: Vec<Job>,
    pub idempotency_keys: Vec<IdempotencyKey>,
}

impl JobRepository {
    /// Well-formedness: job ids are unique, every job is model-valid, and
    /// at most one idempotency mapping per client id is active.
    pub open spec fn wf(self) -> bool {
        &&& forall|i: int| 0 <= i < self.jobs@.len() ==> (#[trigger] self.jobs@[i]).wf()
        &&& forall|i: int, j: int|
            0 <= i < j < self.jobs@.len() ==> self.jobs@[i].id@ != self.jobs@[j].id@
        &&& forall|i: int, j: int|
            0 <= i < j < self.idempotency_keys@.len() && self.idempotency_keys@[i].active
                && self.idempotency_keys@[j].active
                ==> self.idempotency_keys@[i].client_job_id@
                != self.idempotency_keys@[j].client_job_id@
    }

    /// Whether a job row with this id exists.
    pub open spec fn has_job(self, id: Seq<char>) -> bool {
        exists|i: int| 0 <= i < self.jobs@.len() && (#[trigger] self.jobs@[i]).id@ == id
    }

    /// The index of the job row with this id (meaningful when `has_job`).
    pub open spec fn job_idx(self, id: Seq<char>) -> int {
        choose|i: int| 0 <= i < self.jobs@.len() && (#[trigger] self.jobs@[i]).id@ == id
    }

    /// The job row with this id (meaningful when `has_job`).
    pub open spec fn job_of(self, id: Seq<char>) -> Job {
        self.jobs@[self.job_idx(id)]
    }

    /// Whether an active idempotency mapping exists for this client id.
    pub open spec fn has_active_key(self, client_job_id: Seq<char>) -> bool {
        exists|i: int|
            0 <= i < self.idempotency_keys@.len() && (#[trigger] self.idempotency_keys@[i]).active
                && self.idempotency_keys@[i].client_job_id@ == client_job_id
    }

    /// The index of the active mapping for this client id (meaningful when
    /// `has_active_key`).
    pub open spec fn key_idx(self, client_job_id: Seq<char>) -> int {
        choose|i: int|
            0 <= i < self.idempotency_keys@.len() && (#[trigger] self.idempotency_keys@[i]).active
                && self.idempotency_keys@[i].client_job_id@ == client_job_id
    }

    /// The job an active mapping for this client id resolves to, if both the
    /// mapping and the job exist.
    pub open spec fn client_job(self, client_job_id: Seq<char>) -> Option<Job> {
        if self.has_active_key(client_job_id) {
            let k = self.idempotency_keys@[self.key_idx(client_job_id)];
            if self.has_job(k.job_id@) {
                Some(self.job_of(k.job_id@))
            } else {
                None
            }
        } else {
            None
        }
    }

    /// With unique ids, any index holding `id` is the index `job_idx` picks.
    pub proof fn lemma_job_idx_is(self, id: Seq<char>, i: int)
        requires
            self.wf(),
            0 <= i < self.jobs@.len(),
            self.jobs@[i].id@ == id,
        ensures
            self.has_job(id),
            self.job_idx(id) == i,
            self.job_of(id) == self.jobs@[i],
    {
        assert(self.has_job(id));
        let j = self.job_idx(id);
        assert(0 <= j < self.jobs@.len() && self.jobs@[j].id@ == id);
        if i < j {
            assert(self.jobs@[i].id@ != self.jobs@[j].id@);
        } else if j < i {
            assert(self.jobs@[j].id@ != self.jobs@[i].id@);
        }
    }

    /// With at most one active mapping per client id, any active index
    /// holding `client_job_id` is the index `key_idx` picks.
    pub proof fn lemma_key_idx_is(self, client_job_id: Seq<char>, i: int)
        requires
            self.wf(),
            0 <= i < self.idempotency_keys@.len(),
            self.idempotency_keys@[i].active,
            self.idempotency_keys@[i].client_job_id@ == client_job_id,
        ensures
            self.has_active_key(client_job_id),
            self.key_idx(client_job_id) == i,
    {
        assert(self.has_active_key(client_job_id));
        let j = self.key_idx(client_job_id);
        assert(0 <= j < self.idempotency_keys@.len() && self.idempotency_keys@[j].active
            && self.idempotency_keys@[j].client_job_id@ == client_job_id);
        if i < j {
            assert(self.idempotency_keys@[i].client_job_id@
                != self.idempotency_keys@[j].client_job_id@);
        } else if j < i {
            assert(self.idempotency_keys@[j].client_job_id@
                != self.idempotency_keys@[i].client_job_id@);
        }
    }

    /// An empty repository.
    pub fn new() -> (r: Self)
        ensures
            r.wf(),
            r.jobs@.len() == 0,
            r.idempotency_keys@.len() == 0,
    {
        JobRepository { jobs: Vec::new(), idempotency_keys: Vec::new() }
    }

    /// Gets a job by id.
    pub fn get(&self, id: &str) -> (r: Option<Job>)
        requires
            self.wf(),
        ensures
            r == if self.has_job(id@) {
                Some(self.job_of(id@))
            } else {
                None::<Job>
            },
    {
        let n = self.jobs.len();
        let mut i: usize = 0;
        while i < n
            invariant
                self.wf(),
                i <= n,
                n == self.jobs@.len(),
                forall|k: int| 0 <= k < i ==> (#[trigger] self.jobs@[k]).id@ != id@,
            decreases n - i,
        {
            if str_eq(self.jobs[i].id.as_str(), id) {
                proof {
                    self.lemma_job_idx_is(id@, i as int);
                }
                return Some(self.jobs[i].clone());
            }
            i += 1;
        }
        proof {
            assert(!self.has_job(id@));
        }
        None
    }

    /// Whether a job row with this id exists.
    pub fn job_exists(&self, id: &str) -> (r: bool)
        requires
            self.wf(),
        ensures
            r == self.has_job(id@),
    {
        self.get(id).is_some()
    }

    /// Resolves a client job id through its active idempotency mapping.
    pub fn get_by_client_id(&self, client_job_id: &str) -> (r: Option<Job>)
        requires
            self.wf(),
        ensures
            r == self.client_job(client_job_id@),
    {
        let n = self.idempotency_keys.len();
        let mut i: usize = 0;
        while i < n
            invariant
                self.wf(),
                i <= n,
                n == self.idempotency_keys@.len(),
                forall|k: int|
                    0 <= k < i ==> !((#[trigger] self.idempotency_keys@[k]).active
                        && self.idempotency_keys@[k].client_job_id@ == client_job_id@),
            decreases n - i,
        {
            if self.idempotency_keys[i].active
                && str_eq(self.idempotency_keys[i].client_job_id.as_str(), client_job_id) {
                proof {
                    self.lemma_key_idx_is(client_job_id@, i as int);
                }
                return self.get(self.idempotency_keys[i].job_id.as_str());
            }
            i += 1;
        }
        proof {
            assert(!self.has_active_key(client_job_id@));
        }
        None
    }

    fn active_key_exists(&self, client_job_id: &str) -> (r: bool)
        requires
            self.wf(),
        ensures
            r == self.has_active_key(client_job_id@),
    {
        let n = self.idempotency_keys.len();
        let mut i: usize = 0;
        while i < n
            invariant
                i <= n,
                n == self.idempotency_keys@.len(),
                forall|k: int|
                    0 <= k < i ==> !((#[trigger] self.idempotency_keys@[k]).active
                        && self.idempotency_keys@[k].client_job_id@ == client_job_id@),
            decreases n - i,
        {
            if self.idempotency_keys[i].active
                && str_eq(self.idempotency_keys[i].client_job_id.as_str(), client_job_id) {
                return true;
            }
            i += 1;
        }
        false
    }

    /// Persists a new job row, and its idempotency mapping if a client id
    /// was given, as one unit: on any conflict nothing changes.
    pub fn create(&mut self, job: &Job, client_job_id: Option<&str>) -> (r: Result<Job, StoreError>)
        requires
            old(self).wf(),
            job.wf(),
        ensures
            final(self).wf(),
            r is Ok <==> (!old(self).has_job(job.id@) && (match client_job_id {
                Some(c) => !old(self).has_active_key(c@),
                None => true,
            })),
            match r {
                Ok(j) => {
                    &&& j == stored_job(*job)
                    &&& final(self).jobs@ == old(self).jobs@.push(stored_job(*job))
                    &&& match client_job_id {
                        Some(c) => {
                            &&& final(self).idempotency_keys@.len() == old(
                                self,
                            ).idempotency_keys@.len() + 1
                            &&& final(self).idempotency_keys@.drop_last() == old(
                                self,
                            ).idempotency_keys@
                            &&& final(self).idempotency_keys@.last().active
                            &&& final(self).idempotency_keys@.last().client_job_id@ == c@
                            &&& final(self).idempotency_keys@.last().job_id@ == job.id@
                        },
                        None => final(self).idempotency_keys@ == old(self).idempotency_keys@,
                    }
                },
                Err(e) => {
                    &&& e == StoreError::Conflict
                    &&& final(self).jobs@ == old(self).jobs@
                    &&& final(self).idempotency_keys@ == old(self).idempotency_keys@
                },
            },
    {
        if self.get(job.id.as_str()).is_some() {
            return Err(StoreError::Conflict);
        }
        if let Some(c) = client_job_id {
            if self.active_key_exists(c) {
                return Err(StoreError::Conflict);
            }
        }
        let mut row = job.clone();
        row.container_id = None;
        row.exit_code = None;
        row.error = None;
        row.started_at = None;
        row.completed_at = None;
        let ret = row.clone();
        self.jobs.push(row);
        if let Some(c) = client_job_id {
            self.idempotency_keys.push(
                IdempotencyKey {
                    client_job_id: String::from_str(c),
                    job_id: job.id.clone(),
                    active: true,
                },
            );
            proof {
                assert(self.idempotency_keys@.drop_last() =~= old(self).idempotency_keys@);
            }
        }
        proof {
            assert forall|i: int, j: int|
                0 <= i < j < self.jobs@.len() implies self.jobs@[i].id@ != self.jobs@[j].id@ by {
                if j == self.jobs@.len() - 1 {
                    assert(self.jobs@[i] == old(self).jobs@[i]);
                    assert(!old(self).has_job(job.id@));
                }
            }
        }
        Ok(ret)
    }

    /// Updates a job's status, stamping `started_at` or `completed_at` as
    /// the new status requires. A missing id changes nothing.
    pub fn update_status_at(&mut self, id: &str, status: JobStatus, now: i64)
        requires
            old(self).wf(),
            valid_now(now),
        ensures
            final(self).wf(),
            final(self).idempotency_keys@ == old(self).idempotency_keys@,
            old(self).has_job(id@) ==> final(self).jobs@ == old(self).jobs@.update(
                old(self).job_idx(id@),
                with_status(old(self).job_of(id@), status, now),
            ),
            !old(self).has_job(id@) ==> final(self).jobs@ == old(self).jobs@,
    {
        let n = self.jobs.len();
        let mut i: usize = 0;
        while i < n
            invariant
                self == old(self),
                old(self).wf(),
                valid_now(now),
                i <= n,
                n == self.jobs@.len(),
                forall|k: int| 0 <= k < i ==> (#[trigger] self.jobs@[k]).id@ != id@,
            decreases n - i,
        {
            if str_eq(self.jobs[i].id.as_str(), id) {
                proof {
                    old(self).lemma_job_idx_is(id@, i as int);
                }
                let mut row = self.jobs[i].clone();
                row.status = status;
                if status == JobStatus::Running {
                    row.started_at = Some(now);
                } else if status.is_terminal() {
                    row.completed_at = Some(now);
                }
                self.jobs[i] = row;
                proof {
                    assert(self.jobs@[i as int] == with_status(
                        old(self).job_of(id@),
                        status,
                        now,
                    ));
                    assert forall|p: int, q: int|
                        0 <= p < q < self.jobs@.len() implies self.jobs@[p].id@
                        != self.jobs@[q].id@ by {
                        assert(old(self).jobs@[p].id@ != old(self).jobs@[q].id@);
                    }

                    assert forall|k: int| 0 <= k < self.jobs@.len() implies (#[trigger] self.jobs@[k]).wf() by {
                        assert(old(self).jobs@[k].wf());
                        if k != i as int {
                            assert(self.jobs@[k] == old(self).jobs@[k]);
                        }
                    }
                }
                return;
            }
            i += 1;
        }
        proof {
            assert(!old(self).has_job(id@));
        }
    }

    /// Records the runtime handle on a job. A missing id changes nothing.
    pub fn set_container_id(&mut self, id: &str, container_id: String)
        requires
            old(self).wf(),
        ensures
            final(self).wf(),
            final(self).idempotency_keys@ == old(self).idempotency_keys@,
            old(self).has_job(id@) ==> final(self).jobs@ == old(self).jobs@.update(
                old(self).job_idx(id@),
                Job { container_id: Some(container_id), ..old(self).job_of(id@) },
            ),
            !old(self).has_job(id@) ==> final(self).jobs@ == old(self).jobs@,
    {
        let n = self.jobs.len();
        let mut i: usize = 0;
        while i < n
            invariant
                self == old(self),
                old(self).wf(),
                i <= n,
                n == self.jobs@.len(),
                forall|k: int| 0 <= k < i ==> (#[trigger] self.jobs@[k]).id@ != id@,
            decreases n - i,
        {
            if str_eq(self.jobs[i].id.as_str(), id) {
                proof {
                    old(self).lemma_job_idx_is(id@, i as int);
                }
                let mut row = self.jobs[i].clone();
                row.container_id = Some(container_id);
                self.jobs[i] = row;
                proof {
                    assert forall|p: int, q: int|
                        0 <= p < q < self.jobs@.len() implies self.jobs@[p].id@
                        != self.jobs@[q].id@ by {
                        assert(old(self).jobs@[p].id@ != old(self).jobs@[q].id@);
                    }
                    assert forall|k: int| 0 <= k < self.jobs@.len() implies (#[trigger] self.jobs@[k]).wf() by {
                        assert(old(self).jobs@[k].wf());
                        if k != i as int {
                            assert(self.jobs@[k] == old(self).jobs@[k]);
                        }
                    }
                }
                return;
            }
            i += 1;
        }
        proof {
            assert(!old(self).has_job(id@));
        }
    }

    /// Records a job's exit code. A missing id changes nothing.
    pub fn set_exit_code(&mut self, id: &str, exit_code: i32)
        requires
            old(self).wf(),
        ensures
            final(self).wf(),
            final(self).idempotency_keys@ == old(self).idempotency_keys@,
            old(self).has_job(id@) ==> final(self).jobs@ == old(self).jobs@.update(
                old(self).job_idx(id@),
                Job { exit_code: Some(exit_code), ..old(self).job_of(id@) },
            ),
            !old(self).has_job(id@) ==> final(self).jobs@ == old(self).jobs@,
    {
        let n = self.jobs.len();
        let mut i: usize = 0;
        while i < n
            invariant
                self == old(self),
                old(self).wf(),
                i <= n,
                n == self.jobs@.len(),
                forall|k: int| 0 <= k < i ==> (#[trigger] self.jobs@[k]).id@ != id@,
            decreases n - i,
        {
            if str_eq(self.jobs[i].id.as_str(), id) {
                proof {
                    old(self).lemma_job_idx_is(id@, i as int);
                }
                let mut row = self.jobs[i].clone();
                row.exit_code = Some(exit_code);
                self.jobs[i] = row;
                proof {
                    assert forall|p: int, q: int|
                        0 <= p < q < self.jobs@.len() implies self.jobs@[p].id@
                        != self.jobs@[q].id@ by {
                        assert(old(self).jobs@[p].id@ != old(self).jobs@[q].id@);
                    }
                    assert forall|k: int| 0 <= k < self.jobs@.len() implies (#[trigger] self.jobs@[k]).wf() by {
                        assert(old(self).jobs@[k].wf());
                        if k != i as int {
                            assert(self.jobs@[k] == old(self).jobs@[k]);
                        }
                    }
                }
                return;
            }
            i += 1;
        }
        proof {
            assert(!old(self).has_job(id@));
        }
    }

    /// Records a job's error message. A missing id changes nothing.
    pub fn set_error(&mut self, id: &str, error: String)
        requires
            old(self).wf(),
        ensures
            final(self).wf(),
            final(self).idempotency_keys@ == old(self).idempotency_keys@,
            old(self).has_job(id@) ==> final(self).jobs@ == old(self).jobs@.update(
                old(self).job_idx(id@),
                Job { error: Some(error), ..old(self).job_of(id@) },
            ),
            !old(self).has_job(id@) ==> final(self).jobs@ == old(self).jobs@,
    {
        let n = self.jobs.len();
        let mut i: usize = 0;
        while i < n
            invariant
                self == old(self),
                old(self).wf(),
                i <= n,
                n == self.jobs@.len(),
                forall|k: int| 0 <= k < i ==> (#[trigger] self.jobs@[k]).id@ != id@,
            decreases n - i,
        {
            if str_eq(self.jobs[i].id.as_str(), id) {
                proof {
                    old(self).lemma_job_idx_is(id@, i as int);
                }
                let mut row = self.jobs[i].clone();
                row.error = Some(error);
                self.jobs[i] = row;
                proof {
                    assert forall|p: int, q: int|
                        0 <= p < q < self.jobs@.len() implies self.jobs@[p].id@
                        != self.jobs@[q].id@ by {
                        assert(old(self).jobs@[p].id@ != old(self).jobs@[q].id@);
                    }
                    assert forall|k: int| 0 <= k < self.jobs@.len() implies (#[trigger] self.jobs@[k]).wf() by {
                        assert(old(self).jobs@[k].wf());
                        if k != i as int {
                            assert(self.jobs@[k] == old(self).jobs@[k]);
                        }
                    }
                }
                return;
            }
            i += 1;
        }
        proof {
            assert(!old(self).has_job(id@));
        }
    }

    /// Updates a job's status, stamped with the current wall clock.
    pub fn update_status(&mut self, id: &str, status: JobStatus)
        requires
            old(self).wf(),
        ensures
            final(self).wf(),
            exists|now: i64|
                valid_now(now) && #[trigger] update_status_post(
                    *old(self),
                    *final(self),
                    id@,
                    status,
                    now,
                ),
    {
        let now = crate::clock::now_seconds();
        self.update_status_at(id, status, now);
        proof {
            assert(update_status_post(*old(self), *self, id@, status, now));
        }
    }

    /// The jobs a reconciliation sweep should consider: pending, starting
    /// or running.
    pub fn get_active_jobs(&self) -> (r: Vec<Job>)
        requires
            self.wf(),
        ensures
            r@ == self.jobs@.filter(active_pred()),
    {
        let n = self.jobs.len();
        let mut out: Vec<Job> = Vec::new();
        let mut i: usize = 0;
        while i < n
            invariant
                self.wf(),
                i <= n,
                n == self.jobs@.len(),
                out@ == self.jobs@.take(i as int).filter(active_pred()),
            decreases n - i,
        {
            proof {
                crate::seqs::lemma_filter_take_step(self.jobs@, active_pred(), i as int);
            }
            match self.jobs[i].status {
                JobStatus::Pending | JobStatus::Starting | JobStatus::Running => {
                    out.push(self.jobs[i].clone());
                },
                _ => {},
            }
            i += 1;
        }
        proof {
            assert(self.jobs@.take(n as int) =~= self.jobs@);
        }
        out
    }

    /// The resources committed to admitted work: sums over the starting and
    /// running jobs, capped at what the result type can carry.
    pub fn get_resource_usage(&self) -> (r: ResourceUsage)
        requires
            self.wf(),
        ensures
            r.used_cpus as int == cap_i32(sum_used_cpus(self.jobs@)),
            r.used_memory_gb as int == cap_i32(sum_used_memory(self.jobs@)),
            r.running_jobs as int == cap_i32(count_usage_jobs(self.jobs@)),
    {
        let n = self.jobs.len();
        let mut cpus: i64 = 0;
        let mut mem: i64 = 0;
        let mut cnt: i64 = 0;
        let mut i: usize = 0;
        while i < n
            invariant
                self.wf(),
                i <= n,
                n == self.jobs@.len(),
                cpus >= 0,
                mem >= 0,
                cnt >= 0,
                cpus as int == crate::cap_i64(sum_used_cpus(self.jobs@.take(i as int))),
                mem as int == crate::cap_i64(sum_used_memory(self.jobs@.take(i as int))),
                cnt as int == crate::cap_i64(count_usage_jobs(self.jobs@.take(i as int))),
            decreases n - i,
        {
            proof {
                assert(self.jobs@.take(i + 1).drop_last() =~= self.jobs@.take(i as int));
                assert(self.jobs@.take(i + 1).last() == self.jobs@[i as int]);
                assert(self.jobs@[i as int].wf());
                assert(forall|k: int|
                    0 <= k < self.jobs@.take(i as int).len() ==> (#[trigger] self.jobs@.take(
                        i as int,
                    )[k]).wf());
                lemma_usage_sums_nonneg(self.jobs@.take(i as int));
            }
            match self.jobs[i].status {
                JobStatus::Starting | JobStatus::Running => {
                    cpus = sat_add_i64(cpus, self.jobs[i].cpus as i64);
                    mem = sat_add_i64(mem, self.jobs[i].memory_gb as i64);
                    cnt = sat_add_i64(cnt, 1);
                },
                _ => {},
            }
            i += 1;
        }
        proof {
            assert(self.jobs@.take(n as int) =~= self.jobs@);
        }
        let used_cpus: i32 = if cpus > i32::MAX as i64 {
            i32::MAX
        } else {
            cpus as i32
        };
        let used_memory_gb: i32 = if mem > i32::MAX as i64 {
            i32::MAX
        } else {
            mem as i32
        };
        let running_jobs: i32 = if cnt > i32::MAX as i64 {
            i32::MAX
        } else {
            cnt as i32
        };
        ResourceUsage { used_cpus, used_memory_gb, running_jobs }
    }

    /// Lists jobs, optionally restricted to one status name, newest first,
    /// at most `limit` of them.
    pub fn list(&self, status_filter: Option<&str>, limit: usize) -> (r: Vec<Job>)
        requires
            self.wf(),
        ensures
            ({
                let matching = self.jobs@.filter(list_pred(filter_view(status_filter)));
                &&& r@.len() == if limit as int <= matching.len() {
                    limit as int
                } else {
                    matching.len() as int
                }
                &&& sorted_newest_first(r@)
                &&& (forall|i: int| 0 <= i < r@.len() ==> (#[trigger] r@[i]).wf())
                &&& exists|s: Seq<Job>|
                    #[trigger] s.to_multiset() == matching.to_multiset() && sorted_newest_first(s)
                        && r@ == s.take(r@.len() as int)
            }),
    {
        broadcast use vstd::seq_lib::group_to_multiset_ensures;

        let ghost pred = list_pred(filter_view(status_filter));
        let n = self.jobs.len();
        let mut m: Vec<Job> = Vec::new();
        let mut i: usize = 0;
        while i < n
            invariant
                self.wf(),
                i <= n,
                n == self.jobs@.len(),
                m@ == self.jobs@.take(i as int).filter(pred),
                forall|k: int| 0 <= k < m@.len() ==> (#[trigger] m@[k]).wf(),
                pred == list_pred(filter_view(status_filter)),
            decreases n - i,
        {
            proof {
                crate::seqs::lemma_filter_take_step(self.jobs@, pred, i as int);
            }
            let keep = match status_filter {
                None => true,
                Some(f) => crate::text::str_eq(self.jobs[i].status.as_str(), f),
            };
            if keep {
                m.push(self.jobs[i].clone());
            }
            i += 1;
        }
        proof {
            assert(self.jobs@.take(n as int) =~= self.jobs@);
        }
        // Insertion sort, newest first.
        let mlen = m.len();
        let mut sorted: Vec<Job> = Vec::new();
        let mut k: usize = 0;
        while k < mlen
            invariant
                k <= mlen,
                mlen == m@.len(),
                sorted@.len() == k,
                sorted@.to_multiset() == m@.take(k as int).to_multiset(),
                sorted_newest_first(sorted@),
                forall|q: int| 0 <= q < m@.len() ==> (#[trigger] m@[q]).wf(),
                forall|q: int| 0 <= q < sorted@.len() ==> (#[trigger] sorted@[q]).wf(),
            decreases mlen - k,
        {
            let x = m[k].clone();
            let slen = sorted.len();
            let mut p: usize = 0;
            while p < slen && sorted[p].created_at >= x.created_at
                invariant
                    p <= slen,
                    slen == sorted@.len(),
                    x == m@[k as int],
                    sorted_newest_first(sorted@),
                    forall|q: int| 0 <= q < p ==> sorted@[q].created_at >= x.created_at,
                decreases slen - p,
            {
                p += 1;
            }
            let ghost pre_sorted = sorted@;
            sorted.insert(p, x);
            proof {
                broadcast use vstd::seq_lib::group_to_multiset_ensures;

                crate::seqs::lemma_to_multiset_insert(pre_sorted, p as int, m@[k as int]);
                assert(m@.take(k + 1).drop_last() =~= m@.take(k as int));
                assert(m@.take(k + 1) =~= m@.take(k as int).push(m@[k as int]));
                assert(m@.take(k as int).push(m@[k as int]).to_multiset() =~= m@.take(
                    k as int,
                ).to_multiset().insert(m@[k as int]));
                assert(sorted@.to_multiset() =~= m@.take(k + 1).to_multiset());
                assert forall|a: int, b: int|
                    0 <= a < b < sorted@.len() implies sorted@[a].created_at
                    >= sorted@[b].created_at by {
                    if b < p {
                        assert(sorted@[a] == pre_sorted[a] && sorted@[b] == pre_sorted[b]);
                    } else if b == p {
                        assert(sorted@[a] == pre_sorted[a]);
                        assert(pre_sorted[a].created_at >= m@[k as int].created_at);
                    } else if a < p {
                        assert(sorted@[a] == pre_sorted[a] && sorted@[b] == pre_sorted[b - 1]);
                        if p < pre_sorted.len() && a < p {
                            assert(pre_sorted[a].created_at >= pre_sorted[b - 1].created_at);
                        }
                    } else if a == p {
                        assert(sorted@[b] == pre_sorted[b - 1]);
                        assert(p < pre_sorted.len());
                        assert(pre_sorted[p as int].created_at < m@[k as int].created_at);
                        assert(pre_sorted[b - 1].created_at <= pre_sorted[p as int].created_at);
                    } else {
                        assert(sorted@[a] == pre_sorted[a - 1] && sorted@[b] == pre_sorted[b - 1]);
                    }
                }
            }
            k += 1;
        }
        proof {
            assert(m@.take(mlen as int) =~= m@);
        }
        let ghost full = sorted@;
        let lim = if limit < sorted.len() {
            limit
        } else {
            sorted.len()
        };
        sorted.truncate(lim);
        proof {
            assert(full.to_multiset().len() == full.len());
            assert(m@.to_multiset().len() == m@.len());
            assert(sorted@ =~= full.take(lim as int));
            assert(full.to_multiset() == self.jobs@.filter(pred).to_multiset()
                && sorted_newest_first(full) && sorted@ == full.take(sorted@.len() as int));
        }
        sorted
    }

    /// A fresh job id: `job_` followed by twelve characters drawn from a
    /// random UUID.
    pub fn generate_id() -> (r: String)
        ensures
            r@.len() == 16,
            r@.subrange(0, 4) == "job_"@,
    {
        let u = uuid_simple();
        let tail = u.as_str().substring_ascii(0, 12);
        let mut s = String::from_str("job_");
        s.append(tail);
        proof {
            reveal_strlit("job_");
            assert(s@.subrange(0, 4) =~= "job_"@);
        }
        s
    }
}

/// Relies on uuid's `Uuid::new_v4` and its `simple` formatter: a fresh
/// random UUID printed as exactly 32 lowercase hexadecimal ASCII
/// characters. Nothing more can be promised of a random value.
#[verifier::external_body]
fn uuid_simple() -> (r: String)
    ensures
        r@.len() == 32,
        vstd::string::string_is_ascii(&r),
{
    uuid::Uuid::new_v4().simple().to_string()
}

} // verus!
