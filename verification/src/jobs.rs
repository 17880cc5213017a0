//! The job lifecycle controller: validation, idempotency, upload-readiness,
//! quota admission, persistence, and termination.
//!
//! The container-runtime call sits between `create_job_start` and
//! `create_job_finish` (and between `kill_job_check` and `kill_job_apply`):
//! the surrounding application performs it and hands its outcome back.

use vstd::prelude::*;
use vstd::string::*;
use crate::db::jobs::{
    lemma_usage_sums_nonneg, sum_used_cpus, sum_used_memory, with_status, JobRepository,
    ResourceUsage,
};
use crate::db::uploads::UploadRepository;
use crate::models::job::{
    clone_opt_string, CreateJobRequest, CreateJobResponse, Job, JobResponse, JobStatus, JobType,
    ResourceLimits,
};
use crate::valid_now;

verus! {

/// The cluster-wide CPU cap admission control enforces.
pub const MAX_CLUSTER_CPUS: i64 = 16;

/// The cluster-wide memory cap (GB) admission control enforces.
pub const MAX_CLUSTER_MEMORY_GB: i64 = 32;

/// The conventional exit code recorded for a killed job.
pub const KILL_EXIT_CODE: i32 = 137;

/// Why a job-creation request was refused.
#[derive(Clone, Copy, Debug, PartialEq, Eq, Structural)]
pub enum CreateJobError {
    /// The request names a job type that does not exist.
    InvalidJobType,
    /// A worker job was requested without a command.
    MissingCommand,
    /// An agent job was requested without a task.
    MissingTask,
    /// The referenced upload does not exist.
    UploadNotFound,
    /// The referenced upload exists but is not finalized.
    UploadNotReady,
    /// Admitting the job would exceed a cluster-wide resource cap.
    ResourceExhausted,
    /// The store refused the write (a duplicate key).
    DatabaseError,
    /// The container runtime failed to start the job's container.
    ContainerStartFailed,
}

/// How far a creation request got before the container step.
pub enum CreateStart {
    /// An active idempotency mapping resolved to a live job: it is returned
    /// unchanged and nothing was created.
    Existing(CreateJobResponse),
    /// A new job was persisted and moved to `Starting`; the container must
    /// now be started from it.
    Started(Job),
}

/// Why a kill request was refused.
#[derive(Clone, Copy, Debug, PartialEq, Eq, Structural)]
pub enum KillError {
    JobNotFound,
    /// The job is already in a terminal state and cannot be killed again.
    JobAlreadyTerminal,
}

/// The validation outcome of a creation request: worker jobs require a
/// command, agent jobs a task.
pub open spec fn validation_error(req: CreateJobRequest) -> Option<CreateJobError> {
    match JobType::parse_spec(req.job_type@) {
        None => Some(CreateJobError::InvalidJobType),
        Some(JobType::Worker) => if req.command is None {
            Some(CreateJobError::MissingCommand)
        } else {
            None
        },
        Some(JobType::Agent) => if req.task is None {
            Some(CreateJobError::MissingTask)
        } else {
            None
        },
    }
}

/// The job an idempotent retry resolves to: the active mapping's job, as
/// long as it has not reached `Cleaned`.
pub open spec fn idem_hit(jobs: JobRepository, req: CreateJobRequest) -> Option<Job> {
    match req.client_job_id {
        Some(c) => match jobs.client_job(c@) {
            Some(j) => if !(j.status is Cleaned) {
                Some(j)
            } else {
                None
            },
            None => None,
        },
        None => None,
    }
}

/// The upload-readiness outcome: a referenced upload must exist and be
/// finalized.
pub open spec fn upload_gate_error(uploads: UploadRepository, req: CreateJobRequest) -> Option<
    CreateJobError,
> {
    match req.files_id {
        Some(f) => if !uploads.has_upload(f@) {
            Some(CreateJobError::UploadNotFound)
        } else if !(uploads.upload_of(f@).state is Finalized) {
            Some(CreateJobError::UploadNotReady)
        } else {
            None
        },
        None => None,
    }
}

/// Whether the cluster has room for one more job with these (clamped)
/// reservations.
pub open spec fn admission_ok(jobs: JobRepository, cpus: int, memory_gb: int) -> bool {
    &&& sum_used_cpus(jobs.jobs@) + cpus <= MAX_CLUSTER_CPUS
    &&& sum_used_memory(jobs.jobs@) + memory_gb <= MAX_CLUSTER_MEMORY_GB
}

/// The requested reservations clamped to the job type's ceilings.
pub open spec fn clamped_cpus(req: CreateJobRequest, t: JobType) -> int {
    ResourceLimits::clamp_val(
        req.cpus as int,
        ResourceLimits::spec_for_job_type(t).max_cpus as int,
    )
}

pub open spec fn clamped_memory(req: CreateJobRequest, t: JobType) -> int {
    ResourceLimits::clamp_val(
        req.memory_gb as int,
        ResourceLimits::spec_for_job_type(t).max_memory_gb as int,
    )
}

pub open spec fn clamped_timeout(req: CreateJobRequest, t: JobType) -> int {
    ResourceLimits::clamp_val(
        req.timeout_minutes as int,
        ResourceLimits::spec_for_job_type(t).max_timeout_minutes as int,
    )
}

/// The response an idempotent retry returns: the existing job, unchanged,
/// marked `created == false`.
pub open spec fn existing_response(j: Job, r: CreateStart) -> bool {
    &&& r matches CreateStart::Existing(resp)
    &&& (r matches CreateStart::Existing(resp) ==> {
        &&& resp.job_id == j.id
        &&& resp.status == j.status
        &&& resp.created == false
        &&& (resp.message matches Some(m) && m@ == "Existing job returned (idempotent)"@)
    })
}

/// The row a fresh creation persists and returns, already moved to
/// `Starting`: the request's payload, clamped reservations, and no runtime
/// outcome yet.
pub open spec fn started_job_fields(j: Job, req: CreateJobRequest, t: JobType, now: i64) -> bool {
    &&& j.user_id@ == "default"@
    &&& j.job_type == t
    &&& j.status is Starting
    &&& j.command == req.command
    &&& j.task == req.task
    &&& j.context == req.context
    &&& j.git_branch == req.git_branch
    &&& j.files_id == req.files_id
    &&& j.image == req.image
    &&& j.cpus as int == clamped_cpus(req, t)
    &&& j.memory_gb as int == clamped_memory(req, t)
    &&& j.timeout_minutes as int == clamped_timeout(req, t)
    &&& j.container_id is None
    &&& j.exit_code is None
    &&& j.error is None
    &&& j.created_at == now
    &&& j.started_at is None
    &&& j.completed_at is None
}

/// Whether persisting a new row under this id would duplicate a key: the
/// job id itself, or the client id of an active idempotency mapping.
pub open spec fn persist_conflict(pre: JobRepository, req: CreateJobRequest, id: Seq<char>) -> bool {
    pre.has_job(id) || match req.client_job_id {
        Some(c) => pre.has_active_key(c@),
        None => false,
    }
}

/// Whether a creation request passes every gate before persistence:
/// validation, no idempotent hit, upload readiness, and admission.
pub open spec fn gates_pass(
    pre: JobRepository,
    uploads: UploadRepository,
    req: CreateJobRequest,
) -> bool {
    &&& validation_error(req) is None
    &&& idem_hit(pre, req) is None
    &&& upload_gate_error(uploads, req) is None
    &&& admission_ok(
        pre,
        clamped_cpus(req, JobType::parse_spec(req.job_type@).unwrap()),
        clamped_memory(req, JobType::parse_spec(req.job_type@).unwrap()),
    )
}

/// Both relations of the job store left exactly as they were.
pub open spec fn repo_unchanged(pre: JobRepository, post: JobRepository) -> bool {
    post.jobs@ == pre.jobs@ && post.idempotency_keys@ == pre.idempotency_keys@
}

/// Everything `create_job_start` decides, in the order the algorithm
/// decides it: validation, idempotency, upload readiness, admission, then
/// persistence of the new row and its mapping.
pub open spec fn create_start_post(
    pre: JobRepository,
    post: JobRepository,
    uploads: UploadRepository,
    req: CreateJobRequest,
    now: i64,
    r: Result<CreateStart, CreateJobError>,
) -> bool {
    match validation_error(req) {
        Some(e) => r == Result::<CreateStart, CreateJobError>::Err(e) && repo_unchanged(pre, post),
        None => match idem_hit(pre, req) {
            Some(j) => {
                &&& (r matches Ok(cs) && existing_response(j, cs))
                &&& repo_unchanged(pre, post)
            },
            None => match upload_gate_error(uploads, req) {
                Some(e) => r == Result::<CreateStart, CreateJobError>::Err(e) && repo_unchanged(
                    pre,
                    post,
                ),
                None => if !admission_ok(
                    pre,
                    clamped_cpus(req, JobType::parse_spec(req.job_type@).unwrap()),
                    clamped_memory(req, JobType::parse_spec(req.job_type@).unwrap()),
                ) {
                    r == Result::<CreateStart, CreateJobError>::Err(
                        CreateJobError::ResourceExhausted,
                    ) && repo_unchanged(pre, post)
                } else {
                    create_persist_post(pre, post, req, now, r)
                },
            },
        },
    }
}

/// The last stage of `create_start_post`: the new row and its mapping were
/// persisted, or the store refused the write.
pub open spec fn create_persist_post(
    pre: JobRepository,
    post: JobRepository,
    req: CreateJobRequest,
    now: i64,
    r: Result<CreateStart, CreateJobError>,
) -> bool {
    {
        match r {
            Err(e) => e == CreateJobError::DatabaseError && repo_unchanged(pre, post),
            Ok(cs) => match cs {
                CreateStart::Existing(_) => false,
                CreateStart::Started(j) => {
                    &&& started_job_fields(j, req, JobType::parse_spec(req.job_type@).unwrap(), now)
                    &&& !pre.has_job(j.id@)
                    &&& post.jobs@ == pre.jobs@.push(j)
                    &&& match req.client_job_id {
                        Some(c) => {
                            &&& post.idempotency_keys@.len() == pre.idempotency_keys@.len() + 1
                            &&& post.idempotency_keys@.drop_last() == pre.idempotency_keys@
                            &&& post.idempotency_keys@.last().active
                            &&& post.idempotency_keys@.last().client_job_id@ == c@
                            &&& post.idempotency_keys@.last().job_id@ == j.id@
                        },
                        None => post.idempotency_keys@ == pre.idempotency_keys@,
                    }
                },
            },
        }
    }
}

/// Whether one more job with these reservations fits under the cluster
/// caps, from a usage snapshot.
pub fn check_admission(usage: &ResourceUsage, cpus: i32, memory_gb: i32) -> (r: bool)
    ensures
        r == (usage.used_cpus + cpus <= MAX_CLUSTER_CPUS && usage.used_memory_gb + memory_gb
            <= MAX_CLUSTER_MEMORY_GB),
{
    (usage.used_cpus as i64) + (cpus as i64) <= MAX_CLUSTER_CPUS && (usage.used_memory_gb as i64)
        + (memory_gb as i64) <= MAX_CLUSTER_MEMORY_GB
}

/// Runs a creation request up to the container step under a caller-chosen
/// job id: validates the request, resolves idempotent retries, checks the
/// referenced upload, clamps and admits the reservation, and persists the
/// job as `Pending` then `Starting`. Once every gate passes, success is
/// owed exactly when the id and the mapping key are free.
pub fn create_job_start_with_id(
    jobs: &mut JobRepository,
    uploads: &UploadRepository,
    req: &CreateJobRequest,
    new_job_id: String,
    now: i64,
) -> (r: Result<CreateStart, CreateJobError>)
    requires
        old(jobs).wf(),
        uploads.wf(),
        valid_now(now),
    ensures
        final(jobs).wf(),
        create_start_post(*old(jobs), *final(jobs), *uploads, *req, now, r),
        r matches Ok(CreateStart::Started(j)) ==> j.id@ == new_job_id@,
        gates_pass(*old(jobs), *uploads, *req) ==> ((r is Err) == persist_conflict(
            *old(jobs),
            *req,
            new_job_id@,
        )),
{
    // Step 1: parse the job type.
    let job_type = match JobType::from_str(req.job_type.as_str()) {
        Some(t) => t,
        None => {
            return Err(CreateJobError::InvalidJobType);
        },
    };
    // Step 2: the type-required payload field must be present.
    match job_type {
        JobType::Worker => {
            if req.command.is_none() {
                return Err(CreateJobError::MissingCommand);
            }
        },
        JobType::Agent => {
            if req.task.is_none() {
                return Err(CreateJobError::MissingTask);
            }
        },
    }
    // Step 3: an active idempotency mapping to a live job wins.
    if let Some(cid) = &req.client_job_id {
        if let Some(existing) = jobs.get_by_client_id(cid.as_str()) {
            if existing.status != JobStatus::Cleaned {
                return Ok(
                    CreateStart::Existing(
                        CreateJobResponse {
                            job_id: existing.id,
                            status: existing.status,
                            created: false,
                            message: Some(String::from_str("Existing job returned (idempotent)")),
                        },
                    ),
                );
            }
        }
    }
    // Step 4: a referenced upload must exist and be finalized.
    if let Some(f) = &req.files_id {
        match uploads.get(f.as_str()) {
            None => {
                return Err(CreateJobError::UploadNotFound);
            },
            Some(u) => {
                if u.state != crate::models::upload::UploadState::Finalized {
                    return Err(CreateJobError::UploadNotReady);
                }
            },
        }
    }
    // Step 5: clamp the reservation into the type's ceilings.
    let limits = ResourceLimits::for_job_type(job_type);
    let (cpus, memory_gb, timeout_minutes) = limits.clamp(
        req.cpus,
        req.memory_gb,
        req.timeout_minutes,
    );
    // Step 6: admission control against current usage.
    let usage = jobs.get_resource_usage();
    proof {
        lemma_usage_sums_nonneg(jobs.jobs@);
    }
    if !check_admission(&usage, cpus, memory_gb) {
        return Err(CreateJobError::ResourceExhausted);
    }
    // Step 7: persist the job as `Pending` with its mapping, as one unit.
    let job = Job {
        id: new_job_id,
        user_id: String::from_str("default"),
        job_type,
        status: JobStatus::Pending,
        command: clone_opt_string(&req.command),
        task: clone_opt_string(&req.task),
        context: clone_opt_string(&req.context),
        git_branch: clone_opt_string(&req.git_branch),
        files_id: clone_opt_string(&req.files_id),
        image: req.image.clone(),
        cpus,
        memory_gb,
        timeout_minutes,
        container_id: None,
        exit_code: None,
        error: None,
        created_at: now,
        started_at: None,
        completed_at: None,
    };
    let client_id: Option<&str> = match &req.client_job_id {
        Some(c) => Some(c.as_str()),
        None => None,
    };
    let created = match jobs.create(&job, client_id) {
        Ok(j) => j,
        Err(_) => {
            return Err(CreateJobError::DatabaseError);
        },
    };
    let ghost mid = *jobs;
    // Step 8: move to `Starting` before the container step.
    jobs.update_status_at(created.id.as_str(), JobStatus::Starting, now);
    let mut started = created;
    started.status = JobStatus::Starting;
    proof {
        let ghost n = old(jobs).jobs@.len() as int;
        mid.lemma_job_idx_is(started.id@, n);
        assert(mid.jobs@.update(n, with_status(mid.job_of(started.id@), JobStatus::Starting, now))
            =~= old(jobs).jobs@.push(started));
    }
    Ok(CreateStart::Started(started))
}

/// Runs a creation request up to the container step under a freshly drawn
/// job id.
pub fn create_job_start(
    jobs: &mut JobRepository,
    uploads: &UploadRepository,
    req: &CreateJobRequest,
    now: i64,
) -> (r: Result<CreateStart, CreateJobError>)
    requires
        old(jobs).wf(),
        uploads.wf(),
        valid_now(now),
    ensures
        final(jobs).wf(),
        create_start_post(*old(jobs), *final(jobs), *uploads, *req, now, r),
        r matches Ok(CreateStart::Started(j)) ==> j.id@.len() == 16 && j.id@.subrange(0, 4)
            == "job_"@,
{
    let new_job_id = JobRepository::generate_id();
    create_job_start_with_id(jobs, uploads, req, new_job_id, now)
}

/// Finishes a creation after the container step: on success records the
/// container id and moves the job to `Running`; on failure records the
/// error, moves the job to `Failed`, and surfaces the failure.
pub fn create_job_finish(
    jobs: &mut JobRepository,
    job_id: &str,
    container_result: Result<String, String>,
    now: i64,
) -> (r: Result<CreateJobResponse, CreateJobError>)
    requires
        old(jobs).wf(),
        valid_now(now),
    ensures
        final(jobs).wf(),
        final(jobs).idempotency_keys@ == old(jobs).idempotency_keys@,
        !old(jobs).has_job(job_id@) ==> final(jobs).jobs@ == old(jobs).jobs@,
        old(jobs).has_job(job_id@) ==> match container_result {
            Ok(cid) => {
                &&& final(jobs).jobs@ == old(jobs).jobs@.update(
                    old(jobs).job_idx(job_id@),
                    Job {
                        status: JobStatus::Running,
                        container_id: Some(cid),
                        started_at: Some(now),
                        ..old(jobs).job_of(job_id@)
                    },
                )
                &&& (r matches Ok(resp) && resp.job_id@ == job_id@ && resp.status is Running
                    && resp.created == true && resp.message is None)
            },
            Err(msg) => {
                &&& final(jobs).jobs@ == old(jobs).jobs@.update(
                    old(jobs).job_idx(job_id@),
                    Job {
                        status: JobStatus::Failed,
                        error: Some(msg),
                        completed_at: Some(now),
                        ..old(jobs).job_of(job_id@)
                    },
                )
                &&& r == Result::<CreateJobResponse, CreateJobError>::Err(
                    CreateJobError::ContainerStartFailed,
                )
            },
        },
        !old(jobs).has_job(job_id@) ==> match container_result {
            Ok(_) => (r matches Ok(resp) && resp.job_id@ == job_id@ && resp.status is Running
                && resp.created == true && resp.message is None),
            Err(_) => r == Result::<CreateJobResponse, CreateJobError>::Err(
                CreateJobError::ContainerStartFailed,
            ),
        },
{
    match container_result {
        Ok(cid) => {
            jobs.set_container_id(job_id, cid);
            let ghost mid = *jobs;
            jobs.update_status_at(job_id, JobStatus::Running, now);
            proof {
                if old(jobs).has_job(job_id@) {
                    let i = old(jobs).job_idx(job_id@);
                    mid.lemma_job_idx_is(job_id@, i);
                    assert(mid.jobs@.update(
                        i,
                        with_status(mid.job_of(job_id@), JobStatus::Running, now),
                    ) =~= old(jobs).jobs@.update(
                        i,
                        Job {
                            status: JobStatus::Running,
                            container_id: mid.job_of(job_id@).container_id,
                            started_at: Some(now),
                            ..old(jobs).job_of(job_id@)
                        },
                    ));
                }
            }
            Ok(
                CreateJobResponse {
                    job_id: String::from_str(job_id),
                    status: JobStatus::Running,
                    created: true,
                    message: None,
                },
            )
        },
        Err(msg) => {
            jobs.set_error(job_id, msg);
            let ghost mid = *jobs;
            jobs.update_status_at(job_id, JobStatus::Failed, now);
            proof {
                if old(jobs).has_job(job_id@) {
                    let i = old(jobs).job_idx(job_id@);
                    mid.lemma_job_idx_is(job_id@, i);
                    assert(mid.jobs@.update(
                        i,
                        with_status(mid.job_of(job_id@), JobStatus::Failed, now),
                    ) =~= old(jobs).jobs@.update(
                        i,
                        Job {
                            status: JobStatus::Failed,
                            error: mid.job_of(job_id@).error,
                            completed_at: Some(now),
                            ..old(jobs).job_of(job_id@)
                        },
                    ));
                }
            }
            Err(CreateJobError::ContainerStartFailed)
        },
    }
}

/// The container configuration a job's container is started from. A job
/// without staged files gets an empty upload id, as the mount construction
/// expects.
pub fn container_config_for_job(job: &Job) -> (r: crate::podman::ContainerConfig)
    ensures
        r.job_id == job.id,
        r.job_type == (match job.job_type {
            JobType::Worker => crate::podman::JobType::Worker,
            JobType::Agent => crate::podman::JobType::Agent,
        }),
        r.upload_id@ == (match job.files_id {
            Some(f) => f@,
            None => Seq::<char>::empty(),
        }),
        r.image == job.image,
        r.command == job.command,
        r.cpus == job.cpus,
        r.memory_gb == job.memory_gb,
        r.task == job.task,
        r.context == job.context,
        r.git_branch == job.git_branch,
{
    crate::podman::ContainerConfig {
        job_id: job.id.clone(),
        job_type: match job.job_type {
            JobType::Worker => crate::podman::JobType::Worker,
            JobType::Agent => crate::podman::JobType::Agent,
        },
        upload_id: match &job.files_id {
            Some(f) => f.clone(),
            None => String::new(),
        },
        image: job.image.clone(),
        command: clone_opt_string(&job.command),
        cpus: job.cpus,
        memory_gb: job.memory_gb,
        task: clone_opt_string(&job.task),
        context: clone_opt_string(&job.context),
        git_branch: clone_opt_string(&job.git_branch),
    }
}

/// The read projection of one job, with derived times as of `now`.
pub fn get_job(jobs: &JobRepository, id: &str, now: i64) -> (r: Option<JobResponse>)
    requires
        jobs.wf(),
        valid_now(now),
    ensures
        r == if jobs.has_job(id@) {
            Some(JobResponse::of_job(jobs.job_of(id@), now))
        } else {
            None::<JobResponse>
        },
{
    match jobs.get(id) {
        Some(j) => {
            proof {
                assert(jobs.jobs@[jobs.job_idx(id@)].wf());
            }
            Some(JobResponse::from_job(&j, now))
        },
        None => None,
    }
}

/// The result count a listing request is allowed: 20 when unstated, capped
/// at 100, never negative.
pub open spec fn effective_limit(limit: Option<i32>) -> int {
    match limit {
        None => 20,
        Some(l) => if l < 0 {
            0
        } else if l > 100 {
            100
        } else {
            l as int
        },
    }
}

/// The read projection of the job list: optionally filtered by status name,
/// newest first, bounded by the effective limit.
pub fn list_jobs(
    jobs: &JobRepository,
    status_filter: Option<&str>,
    limit: Option<i32>,
    now: i64,
) -> (r: Vec<JobResponse>)
    requires
        jobs.wf(),
        valid_now(now),
    ensures
        ({
            let matching = jobs.jobs@.filter(
                crate::db::jobs::list_pred(crate::db::jobs::filter_view(status_filter)),
            );
            &&& r@.len() == if effective_limit(limit) <= matching.len() {
                effective_limit(limit)
            } else {
                matching.len() as int
            }
            &&& exists|s: Seq<Job>|
                #[trigger] s.to_multiset() == matching.to_multiset()
                    && crate::db::jobs::sorted_newest_first(s) && r@ == s.take(
                    r@.len() as int,
                ).map_values(|j: Job| JobResponse::of_job(j, now))
        }),
{
    let lim: usize = match limit {
        None => 20,
        Some(l) => if l < 0 {
            0
        } else if l > 100 {
            100
        } else {
            l as usize
        },
    };
    let js = jobs.list(status_filter, lim);
    let ghost matching = jobs.jobs@.filter(
        crate::db::jobs::list_pred(crate::db::jobs::filter_view(status_filter)),
    );
    let ghost s = choose|s: Seq<Job>|
        #[trigger] s.to_multiset() == matching.to_multiset()
            && crate::db::jobs::sorted_newest_first(s) && js@ == s.take(js@.len() as int);
    let n = js.len();
    let mut out: Vec<JobResponse> = Vec::new();
    let mut i: usize = 0;
    while i < n
        invariant
            valid_now(now),
            i <= n,
            n == js@.len(),
            forall|k: int| 0 <= k < js@.len() ==> (#[trigger] js@[k]).wf(),
            out@ == js@.take(i as int).map_values(|j: Job| JobResponse::of_job(j, now)),
        decreases n - i,
    {
        proof {
            assert(js@[i as int].wf());
        }
        out.push(JobResponse::from_job(&js[i], now));
        proof {
            assert(out@ =~= js@.take(i + 1).map_values(|j: Job| JobResponse::of_job(j, now)));
        }
        i += 1;
    }
    proof {
        assert(js@.take(n as int) =~= js@);
        assert(out@ == s.take(js@.len() as int).map_values(|j: Job| JobResponse::of_job(j, now)));
    }
    out
}

/// What the kill check decides: the job must exist and must not already be
/// terminal.
pub open spec fn kill_check_result(jobs: JobRepository, id: Seq<char>) -> Result<Job, KillError> {
    if !jobs.has_job(id) {
        Result::<Job, KillError>::Err(KillError::JobNotFound)
    } else if jobs.job_of(id).status.spec_is_terminal() {
        Result::<Job, KillError>::Err(KillError::JobAlreadyTerminal)
    } else {
        Result::<Job, KillError>::Ok(jobs.job_of(id))
    }
}

/// Decides whether a job may be killed: it must exist and must not already
/// be terminal. Returns the job so the caller can stop its container.
pub fn kill_job_check(jobs: &JobRepository, id: &str) -> (r: Result<Job, KillError>)
    requires
        jobs.wf(),
    ensures
        r == kill_check_result(*jobs, id@),
{
    match jobs.get(id) {
        None => Err(KillError::JobNotFound),
        Some(j) => {
            if j.status.is_terminal() {
                Err(KillError::JobAlreadyTerminal)
            } else {
                Ok(j)
            }
        },
    }
}

/// What forcing a job to `Cancelled` leaves behind: status, completion
/// stamp, and the conventional kill exit code; nothing else changes.
pub open spec fn kill_apply_post(
    pre: JobRepository,
    post: JobRepository,
    id: Seq<char>,
    now: i64,
) -> bool {
    &&& post.idempotency_keys@ == pre.idempotency_keys@
    &&& (pre.has_job(id) ==> post.jobs@ == pre.jobs@.update(
        pre.job_idx(id),
        Job {
            status: JobStatus::Cancelled,
            completed_at: Some(now),
            exit_code: Some(KILL_EXIT_CODE),
            ..pre.job_of(id)
        },
    ))
    &&& (!pre.has_job(id) ==> post.jobs@ == pre.jobs@)
}

/// Forces a job to `Cancelled` with the conventional kill exit code. Runs
/// whatever the container step did: cancellation must always be observable.
pub fn kill_job_apply(jobs: &mut JobRepository, id: &str, now: i64)
    requires
        old(jobs).wf(),
        valid_now(now),
    ensures
        final(jobs).wf(),
        kill_apply_post(*old(jobs), *final(jobs), id@, now),
{
    jobs.update_status_at(id, JobStatus::Cancelled, now);
    let ghost mid = *jobs;
    jobs.set_exit_code(id, KILL_EXIT_CODE);
    proof {
        if old(jobs).has_job(id@) {
            let i = old(jobs).job_idx(id@);
            mid.lemma_job_idx_is(id@, i);
            assert(mid.jobs@.update(
                i,
                Job { exit_code: Some(KILL_EXIT_CODE), ..mid.job_of(id@) },
            ) =~= old(jobs).jobs@.update(
                i,
                Job {
                    status: JobStatus::Cancelled,
                    completed_at: Some(now),
                    exit_code: Some(KILL_EXIT_CODE),
                    ..old(jobs).job_of(id@)
                },
            ));
        }
    }
}

} // verus!
