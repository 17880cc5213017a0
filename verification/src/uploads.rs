//! The upload lifecycle controller: the finalize flow with its size and
//! disk-quota gates, and the read projection.
//!
//! Measuring a staging directory is filesystem work and happens outside the
//! library; the flow takes the measured size and file count as values.

use vstd::prelude::*;
use vstd::string::*;
use crate::db::uploads::{
    disk_usage, finalize_post, lemma_disk_usage_nonneg, FinalizeError, UploadRepository,
    FINALIZED_TTL_SECONDS, UPLOADING_TTL_SECONDS,
};
use crate::models::upload::{Upload, UploadConfig, UploadResponse, UploadState};
use crate::text::sat_add_i64;
use crate::{cap_i64, valid_now};

verus! {

/// Why a finalize request was refused.
#[derive(Clone, Copy, Debug, PartialEq, Eq, Structural)]
pub enum UploadFlowError {
    /// The upload does not exist (only after a failed creation; the flow
    /// registers unseen ids itself).
    NotFound,
    /// Finalize is one-shot: the upload was already finalized.
    AlreadyFinalized,
    /// The upload was already consumed by a job.
    AlreadyConsumed,
    /// The upload expired before it could be finalized.
    Expired,
    /// The upload alone is larger than the per-upload ceiling.
    TooLarge,
    /// Accepting the upload would exceed the staging disk quota.
    QuotaExceeded,
}

/// Everything the finalize flow decides, in order: the per-upload size
/// ceiling, the global disk quota, registration of an unseen id, then the
/// repository's one-shot finalize.
pub open spec fn finalize_flow_post(
    pre: UploadRepository,
    post: UploadRepository,
    id: Seq<char>,
    size_bytes: i64,
    file_count: i64,
    config: UploadConfig,
    now: i64,
    r: Result<UploadResponse, UploadFlowError>,
) -> bool {
    if size_bytes > config.max_upload_size_bytes {
        r == Result::<UploadResponse, UploadFlowError>::Err(UploadFlowError::TooLarge)
            && post.uploads@ == pre.uploads@
    } else if cap_i64(disk_usage(pre.uploads@) + size_bytes) > config.max_total_disk_bytes {
        r == Result::<UploadResponse, UploadFlowError>::Err(UploadFlowError::QuotaExceeded)
            && post.uploads@ == pre.uploads@
    } else if !pre.has_upload(id) {
        // The id is registered first, then finalized, so one new row holds
        // the finalized upload.
        match r {
            Err(_) => false,
            Ok(resp) => {
                &&& post.uploads@.len() == pre.uploads@.len() + 1
                &&& post.uploads@.drop_last() == pre.uploads@
                &&& post.uploads@.last().id@ == id
                &&& post.uploads@.last().user_id@ == "default"@
                &&& post.uploads@.last().state is Finalized
                &&& post.uploads@.last().size_bytes == Some(size_bytes)
                &&& post.uploads@.last().file_count == Some(file_count)
                &&& post.uploads@.last().created_at == now
                &&& post.uploads@.last().finalized_at == Some(now)
                &&& post.uploads@.last().expires_at == Some((now + FINALIZED_TTL_SECONDS) as i64)
                &&& resp == UploadResponse::of_upload(post.uploads@.last())
            },
        }
    } else {
        match r {
            Ok(resp) => {
                &&& pre.upload_of(id).state is Uploading
                &&& finalize_post(
                    pre,
                    post,
                    id,
                    size_bytes,
                    file_count,
                    now,
                    Ok(post.uploads@[pre.upload_idx(id)]),
                )
                &&& resp == UploadResponse::of_upload(post.uploads@[pre.upload_idx(id)])
            },
            Err(e) => {
                &&& match pre.upload_of(id).state {
                    UploadState::Uploading => false,
                    UploadState::Finalized => e == UploadFlowError::AlreadyFinalized,
                    UploadState::Consumed => e == UploadFlowError::AlreadyConsumed,
                    UploadState::Expired => e == UploadFlowError::Expired,
                }
                &&& post.uploads@ == pre.uploads@
            },
        }
    }
}

/// Finalizes a staged upload whose size and file count have been measured:
/// enforces the per-upload ceiling and the disk quota, registers the id if
/// it was never seen, and performs the one-shot finalize transition.
pub fn finalize_upload_flow(
    uploads: &mut UploadRepository,
    id: &str,
    size_bytes: i64,
    file_count: i64,
    config: &UploadConfig,
    now: i64,
) -> (r: Result<UploadResponse, UploadFlowError>)
    requires
        old(uploads).wf(),
        valid_now(now),
        size_bytes >= 0,
        file_count >= 0,
    ensures
        final(uploads).wf(),
        finalize_flow_post(
            *old(uploads),
            *final(uploads),
            id@,
            size_bytes,
            file_count,
            *config,
            now,
            r,
        ),
{
    if size_bytes > config.max_upload_size_bytes {
        return Err(UploadFlowError::TooLarge);
    }
    let usage = uploads.get_total_disk_usage();
    proof {
        lemma_disk_usage_nonneg(uploads.uploads@);
    }
    if sat_add_i64(usage, size_bytes) > config.max_total_disk_bytes {
        return Err(UploadFlowError::QuotaExceeded);
    }
    if uploads.get(id).is_none() {
        let _ = uploads.create_at(id, "default", now);
        proof {
            reveal_strlit("default");
        }
        let ghost mid = *uploads;
        let finalized = uploads.finalize_at(id, size_bytes, file_count, now);
        proof {
            let n = old(uploads).uploads@.len() as int;
            mid.lemma_upload_idx_is(id@, n);
            assert(uploads.uploads@.drop_last() =~= old(uploads).uploads@);
        }
        match finalized {
            Ok(u) => {
                let resp = UploadResponse::from_upload(&u);
                return Ok(resp);
            },
            Err(_) => {
                proof {
                    assert(false);
                }
                return Err(UploadFlowError::NotFound);
            },
        }
    }
    match uploads.finalize_at(id, size_bytes, file_count, now) {
        Ok(u) => {
            proof {
                assert(uploads.uploads@[old(uploads).upload_idx(id@)] == u);
            }
            Ok(UploadResponse::from_upload(&u))
        },
        Err(e) => {
            match e {
                FinalizeError::NotFound => Err(UploadFlowError::NotFound),
                FinalizeError::AlreadyFinalized => Err(UploadFlowError::AlreadyFinalized),
                FinalizeError::AlreadyConsumed => Err(UploadFlowError::AlreadyConsumed),
                FinalizeError::Expired => Err(UploadFlowError::Expired),
            }
        },
    }
}

/// The read projection of an upload.
pub fn get_upload(uploads: &UploadRepository, id: &str) -> (r: Option<UploadResponse>)
    requires
        uploads.wf(),
    ensures
        r == if uploads.has_upload(id@) {
            Some(UploadResponse::of_upload(uploads.upload_of(id@)))
        } else {
            None::<UploadResponse>
        },
{
    match uploads.get(id) {
        Some(u) => Some(UploadResponse::from_upload(&u)),
        None => None,
    }
}

} // verus!
