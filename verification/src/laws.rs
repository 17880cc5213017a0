//! The controller-level laws: properties that relate several operations,
//! proved from the operations' contracts alone.

use vstd::prelude::*;
use crate::db::jobs::JobRepository;
use crate::db::uploads::{finalize_post, FinalizeError, UploadRepository};
use crate::jobs::{
    create_start_post, existing_response, kill_check_result, repo_unchanged, validation_error,
    CreateJobError, CreateStart, KillError,
};
use crate::models::job::{CreateJobRequest, Job, JobType};
use crate::models::upload::Upload;

verus! {

/// A creation request fails validation exactly when its type-required field
/// is absent: a worker request without a command is refused with
/// `MissingCommand`, an agent request without a task with `MissingTask`, an
/// unknown type with `InvalidJobType` — and with no other error of the
/// validation stage.
pub proof fn lemma_create_validation(
    pre: JobRepository,
    post: JobRepository,
    uploads: UploadRepository,
    req: CreateJobRequest,
    now: i64,
    r: Result<CreateStart, CreateJobError>,
)
    requires
        create_start_post(pre, post, uploads, req, now, r),
    ensures
        (r == Result::<CreateStart, CreateJobError>::Err(CreateJobError::InvalidJobType)) <==> (
        JobType::parse_spec(req.job_type@) is None),
        (r == Result::<CreateStart, CreateJobError>::Err(CreateJobError::MissingCommand)) <==> (
        JobType::parse_spec(req.job_type@) == Some(JobType::Worker) && req.command is None),
        (r == Result::<CreateStart, CreateJobError>::Err(CreateJobError::MissingTask)) <==> (
        JobType::parse_spec(req.job_type@) == Some(JobType::Agent) && req.task is None),
        validation_error(req) is Some ==> repo_unchanged(pre, post),
{
}

/// Idempotent creation: when a creation request has persisted a new job
/// under a client job id, a second well-formed request with the same client
/// job id returns that same job (`created == false`) and changes nothing,
/// so exactly one row exists for the pair of calls.
pub proof fn lemma_idempotent_creation(
    s0: JobRepository,
    s1: JobRepository,
    s2: JobRepository,
    uploads1: UploadRepository,
    uploads2: UploadRepository,
    req1: CreateJobRequest,
    req2: CreateJobRequest,
    now1: i64,
    now2: i64,
    j: Job,
    r2: Result<CreateStart, CreateJobError>,
)
    requires
        s0.wf(),
        s1.wf(),
        create_start_post(s0, s1, uploads1, req1, now1, Ok(CreateStart::Started(j))),
        create_start_post(s1, s2, uploads2, req2, now2, r2),
        req1.client_job_id is Some,
        req2.client_job_id is Some,
        req2.client_job_id.unwrap()@ == req1.client_job_id.unwrap()@,
        validation_error(req2) is None,
    ensures
        r2 matches Ok(cs) && existing_response(j, cs),
        repo_unchanged(s1, s2),
        s1.jobs@.len() == s0.jobs@.len() + 1,
{
    let c = req1.client_job_id.unwrap()@;
    // The first call reached the persistence stage: every earlier stage
    // returns something other than `Ok(Started(_))`.
    assert(s1.jobs@ == s0.jobs@.push(j));
    let klen = s1.idempotency_keys@.len() as int;
    assert(s1.idempotency_keys@[klen - 1].active);
    assert(s1.idempotency_keys@[klen - 1].client_job_id@ == c);
    s1.lemma_key_idx_is(c, klen - 1);
    let n = s1.jobs@.len() as int;
    assert(s1.jobs@[n - 1] == j);
    s1.lemma_job_idx_is(j.id@, n - 1);
    assert(s1.client_job(c) == Some(j));
    assert(!(j.status is Cleaned));
}

/// Upload finalize is one-shot: after a finalize succeeds, a second
/// finalize of the same id fails with `AlreadyFinalized` and the stored
/// size, file count and finalize timestamp are unchanged.
pub proof fn lemma_finalize_one_shot(
    s0: UploadRepository,
    s1: UploadRepository,
    s2: UploadRepository,
    id: Seq<char>,
    size1: i64,
    count1: i64,
    now1: i64,
    size2: i64,
    count2: i64,
    now2: i64,
    u: Upload,
    r2: Result<Upload, FinalizeError>,
)
    requires
        s0.wf(),
        s1.wf(),
        finalize_post(s0, s1, id, size1, count1, now1, Ok(u)),
        finalize_post(s1, s2, id, size2, count2, now2, r2),
    ensures
        r2 == Result::<Upload, FinalizeError>::Err(FinalizeError::AlreadyFinalized),
        s2.uploads@ == s1.uploads@,
        s1.has_upload(id),
        s1.upload_of(id).size_bytes == Some(size1),
        s1.upload_of(id).file_count == Some(count1),
        s1.upload_of(id).finalized_at == Some(now1),
{
    let i = s0.upload_idx(id);
    assert(s1.uploads@[i].id@ == id);
    s1.lemma_upload_idx_is(id, i);
    assert(s1.upload_of(id).state is Finalized);
}

/// Disk accounting counts only staged uploads: an upload that is consumed
/// or expired contributes nothing, so removing its row leaves the total
/// unchanged.
pub proof fn lemma_disk_usage_ignores_unstaged(uploads: Seq<Upload>, i: int)
    requires
        0 <= i < uploads.len(),
        !uploads[i].state.occupies_disk(),
    ensures
        crate::db::uploads::disk_usage(uploads) == crate::db::uploads::disk_usage(
            uploads.remove(i),
        ),
    decreases uploads.len(),
{
    if i == uploads.len() - 1 {
        assert(uploads.remove(i) =~= uploads.drop_last());
        assert(uploads[i].disk_bytes() == 0);
    } else {
        lemma_disk_usage_ignores_unstaged(uploads.drop_last(), i);
        assert(uploads.remove(i).drop_last() =~= uploads.drop_last().remove(i));
        assert(uploads.remove(i).last() == uploads.last());
    }
}

/// Kill on a terminal job is rejected: once a job has reached a terminal
/// status, the kill check refuses with `JobAlreadyTerminal`; nothing is
/// applied, so the job row — its exit code included — stays as it is.
pub proof fn lemma_kill_terminal_rejected(jobs: JobRepository, id: Seq<char>)
    requires
        jobs.wf(),
        jobs.has_job(id),
        jobs.job_of(id).status.spec_is_terminal(),
    ensures
        kill_check_result(jobs, id) == Result::<Job, KillError>::Err(KillError::JobAlreadyTerminal),
{
}

} // verus!
