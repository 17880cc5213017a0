//! The upload repository: staged-input rows, their one-shot finalize
//! transition, and disk-quota accounting.

use vstd::prelude::*;
use vstd::string::*;
use crate::models::upload::{Upload, UploadState};
use crate::text::{sat_add_i64, str_eq};
use crate::{cap_i64, valid_now};

verus! {

/// How long a staging area may sit unfinalized before it expires.
pub const UPLOADING_TTL_SECONDS: i64 = 1800;

/// How long a finalized upload may wait to be consumed before it expires;
/// longer than the uploading TTL, and refreshed on finalize.
pub const FINALIZED_TTL_SECONDS: i64 = 3600;

/// Why a finalize was refused: finalize is strictly a one-shot transition
/// out of `Uploading`.
#[derive(Clone, Copy, Debug, PartialEq, Eq, Structural)]
pub enum FinalizeError {
    NotFound,
    AlreadyFinalized,
    AlreadyConsumed,
    Expired,
}

/// Total bytes currently occupying the staging disk: the sum of `size_bytes`
/// over uploads still uploading or finalized.
pub open spec fn disk_usage(uploads: Seq<Upload>) -> int
    decreases uploads.len(),
{
    if uploads.len() == 0 {
        0
    } else {
        disk_usage(uploads.drop_last()) + uploads.last().disk_bytes()
    }
}

/// Non-negativity of disk usage over model-valid uploads.
pub proof fn lemma_disk_usage_nonneg(uploads: Seq<Upload>)
    requires
        forall|i: int| 0 <= i < uploads.len() ==> (#[trigger] uploads[i]).wf(),
    ensures
        disk_usage(uploads) >= 0,
    decreases uploads.len(),
{
    if uploads.len() > 0 {
        assert(uploads[uploads.len() - 1].wf());
        assert(forall|i: int|
            0 <= i < uploads.drop_last().len() ==> (#[trigger] uploads.drop_last()[i]).wf());
        lemma_disk_usage_nonneg(uploads.drop_last());
    }
}

/// The predicate `get_expired` selects with: still staged, with an expiry
/// that has passed.
pub open spec fn expired_pred(now: i64) -> spec_fn(Upload) -> bool {
    |u: Upload| u.state.occupies_disk() && (u.expires_at matches Some(e) && e < now)
}

/// What a finalize leaves behind and returns, by the upload's prior state.
pub open spec fn finalize_post(
    pre: UploadRepository,
    post: UploadRepository,
    id: Seq<char>,
    size_bytes: i64,
    file_count: i64,
    now: i64,
    r: Result<Upload, FinalizeError>,
) -> bool {
    if !pre.has_upload(id) {
        r == Result::<Upload, FinalizeError>::Err(FinalizeError::NotFound) && post.uploads@
            == pre.uploads@
    } else {
        let u = pre.upload_of(id);
        match u.state {
            UploadState::Uploading => {
                let updated = Upload {
                    state: UploadState::Finalized,
                    size_bytes: Some(size_bytes),
                    file_count: Some(file_count),
                    finalized_at: Some(now),
                    expires_at: Some((now + FINALIZED_TTL_SECONDS) as i64),
                    ..u
                };
                r == Result::<Upload, FinalizeError>::Ok(updated) && post.uploads@
                    == pre.uploads@.update(pre.upload_idx(id), updated)
            },
            UploadState::Finalized => r == Result::<Upload, FinalizeError>::Err(
                FinalizeError::AlreadyFinalized,
            ) && post.uploads@ == pre.uploads@,
            UploadState::Consumed => r == Result::<Upload, FinalizeError>::Err(
                FinalizeError::AlreadyConsumed,
            ) && post.uploads@ == pre.uploads@,
            UploadState::Expired => r == Result::<Upload, FinalizeError>::Err(
                FinalizeError::Expired,
            ) && post.uploads@ == pre.uploads@,
        }
    }
}

/// What a consume leaves behind, for any wall-clock reading `now`.
pub open spec fn consume_post(
    pre: UploadRepository,
    post: UploadRepository,
    id: Seq<char>,
    job_id: String,
    now: i64,
) -> bool {
    &&& (pre.has_upload(id) ==> post.uploads@ == pre.uploads@.update(
        pre.upload_idx(id),
        Upload {
            state: UploadState::Consumed,
            consumed_at: Some(now),
            job_id: Some(job_id),
            ..pre.upload_of(id)
        },
    ))
    &&& (!pre.has_upload(id) ==> post.uploads@ == pre.uploads@)
}

/// The durable upload state.
#[derive(Debug)]
pub struct UploadRepository {
    pub uploads: Vec<Upload>,
}

impl UploadRepository {
    /// Well-formedness: upload ids are unique and every row is model-valid.
    pub open spec fn wf(self) -> bool {
        &&& forall|i: int| 0 <= i < self.uploads@.len() ==> (#[trigger] self.uploads@[i]).wf()
        &&& forall|i: int, j: int|
            0 <= i < j < self.uploads@.len() ==> self.uploads@[i].id@ != self.uploads@[j].id@
    }

    /// Whether an upload row with this id exists.
    pub open spec fn has_upload(self, id: Seq<char>) -> bool {
        exists|i: int| 0 <= i < self.uploads@.len() && (#[trigger] self.uploads@[i]).id@ == id
    }

    /// The index of the upload row with this id (meaningful when
    /// `has_upload`).
    pub open spec fn upload_idx(self, id: Seq<char>) -> int {
        choose|i: int| 0 <= i < self.uploads@.len() && (#[trigger] self.uploads@[i]).id@ == id
    }

    /// The upload row with this id (meaningful when `has_upload`).
    pub open spec fn upload_of(self, id: Seq<char>) -> Upload {
        self.uploads@[self.upload_idx(id)]
    }

    /// With unique ids, any index holding `id` is the index `upload_idx`
    /// picks.
    pub proof fn lemma_upload_idx_is(self, id: Seq<char>, i: int)
        requires
            self.wf(),
            0 <= i < self.uploads@.len(),
            self.uploads@[i].id@ == id,
        ensures
            self.has_upload(id),
            self.upload_idx(id) == i,
            self.upload_of(id) == self.uploads@[i],
    {
        assert(self.has_upload(id));
        let j = self.upload_idx(id);
        assert(0 <= j < self.uploads@.len() && self.uploads@[j].id@ == id);
        if i < j {
            assert(self.uploads@[i].id@ != self.uploads@[j].id@);
        } else if j < i {
            assert(self.uploads@[j].id@ != self.uploads@[i].id@);
        }
    }

    /// An empty repository.
    pub fn new() -> (r: Self)
        ensures
            r.wf(),
            r.uploads@.len() == 0,
    {
        UploadRepository { uploads: Vec::new() }
    }

    /// Gets an upload by id.
    pub fn get(&self, id: &str) -> (r: Option<Upload>)
        requires
            self.wf(),
        ensures
            r == if self.has_upload(id@) {
                Some(self.upload_of(id@))
            } else {
                None::<Upload>
            },
    {
        let n = self.uploads.len();
        let mut i: usize = 0;
        while i < n
            invariant
                self.wf(),
                i <= n,
                n == self.uploads@.len(),
                forall|k: int| 0 <= k < i ==> (#[trigger] self.uploads@[k]).id@ != id@,
            decreases n - i,
        {
            if str_eq(self.uploads[i].id.as_str(), id) {
                proof {
                    self.lemma_upload_idx_is(id@, i as int);
                }
                return Some(self.uploads[i].clone());
            }
            i += 1;
        }
        proof {
            assert(!self.has_upload(id@));
        }
        None
    }

    /// Registers a freshly observed staging area: state `Uploading`, with an
    /// expiry one uploading-TTL from `now`. An existing id is a conflict and
    /// changes nothing.
    pub fn create_at(&mut self, id: &str, user_id: &str, now: i64) -> (r: Result<
        Upload,
        crate::db::jobs::StoreError,
    >)
        requires
            old(self).wf(),
            valid_now(now),
        ensures
            final(self).wf(),
            r is Ok <==> !old(self).has_upload(id@),
            match r {
                Ok(u) => {
                    &&& final(self).uploads@ == old(self).uploads@.push(u)
                    &&& u.id@ == id@
                    &&& u.user_id@ == user_id@
                    &&& u.state is Uploading
                    &&& u.size_bytes is None
                    &&& u.file_count is None
                    &&& u.created_at == now
                    &&& u.finalized_at is None
                    &&& u.consumed_at is None
                    &&& u.expires_at == Some((now + UPLOADING_TTL_SECONDS) as i64)
                    &&& u.job_id is None
                },
                Err(e) => {
                    &&& e == crate::db::jobs::StoreError::Conflict
                    &&& final(self).uploads@ == old(self).uploads@
                },
            },
    {
        if self.get(id).is_some() {
            return Err(crate::db::jobs::StoreError::Conflict);
        }
        let row = Upload {
            id: String::from_str(id),
            user_id: String::from_str(user_id),
            state: UploadState::Uploading,
            size_bytes: None,
            file_count: None,
            created_at: now,
            finalized_at: None,
            consumed_at: None,
            expires_at: Some(now + UPLOADING_TTL_SECONDS),
            job_id: None,
        };
        let ret = row.clone();
        self.uploads.push(row);
        proof {
            assert forall|i: int, j: int|
                0 <= i < j < self.uploads@.len() implies self.uploads@[i].id@
                != self.uploads@[j].id@ by {
                if j == self.uploads@.len() - 1 {
                    assert(self.uploads@[i] == old(self).uploads@[i]);
                    assert(!old(self).has_upload(id@));
                }
            }
            assert forall|k: int|
                0 <= k < self.uploads@.len() implies (#[trigger] self.uploads@[k]).wf() by {
                if k < self.uploads@.len() - 1 {
                    assert(self.uploads@[k] == old(self).uploads@[k]);
                    assert(old(self).uploads@[k].wf());
                }
            }
        }
        Ok(ret)
    }

    /// Registers a staging area, stamped with the current wall clock.
    pub fn create(&mut self, id: &str, user_id: &str) -> (r: Result<
        Upload,
        crate::db::jobs::StoreError,
    >)
        requires
            old(self).wf(),
        ensures
            final(self).wf(),
            r is Ok <==> !old(self).has_upload(id@),
            match r {
                Ok(u) => {
                    &&& final(self).uploads@ == old(self).uploads@.push(u)
                    &&& u.id@ == id@
                    &&& u.user_id@ == user_id@
                    &&& u.state is Uploading
                    &&& u.size_bytes is None
                    &&& u.file_count is None
                    &&& valid_now(u.created_at)
                    &&& u.finalized_at is None
                    &&& u.consumed_at is None
                    &&& u.expires_at == Some((u.created_at + UPLOADING_TTL_SECONDS) as i64)
                    &&& u.job_id is None
                },
                Err(e) => {
                    &&& e == crate::db::jobs::StoreError::Conflict
                    &&& final(self).uploads@ == old(self).uploads@
                },
            },
    {
        let now = crate::clock::now_seconds();
        self.create_at(id, user_id, now)
    }

    /// The one-shot transition out of `Uploading`: records size and file
    /// count, stamps `finalized_at`, and extends the expiry by the
    /// finalized-TTL. Any other state is refused and changes nothing.
    pub fn finalize_at(&mut self, id: &str, size_bytes: i64, file_count: i64, now: i64) -> (r:
        Result<Upload, FinalizeError>)
        requires
            old(self).wf(),
            valid_now(now),
            size_bytes >= 0,
            file_count >= 0,
        ensures
            final(self).wf(),
            finalize_post(*old(self), *final(self), id@, size_bytes, file_count, now, r),
    {
        let n = self.uploads.len();
        let mut i: usize = 0;
        while i < n
            invariant
                self == old(self),
                old(self).wf(),
                valid_now(now),
                size_bytes >= 0,
                file_count >= 0,
                i <= n,
                n == self.uploads@.len(),
                forall|k: int| 0 <= k < i ==> (#[trigger] self.uploads@[k]).id@ != id@,
            decreases n - i,
        {
            if str_eq(self.uploads[i].id.as_str(), id) {
                proof {
                    old(self).lemma_upload_idx_is(id@, i as int);
                }
                match self.uploads[i].state {
                    UploadState::Uploading => {
                        let mut row = self.uploads[i].clone();
                        row.state = UploadState::Finalized;
                        row.size_bytes = Some(size_bytes);
                        row.file_count = Some(file_count);
                        row.finalized_at = Some(now);
                        row.expires_at = Some(now + FINALIZED_TTL_SECONDS);
                        let ret = row.clone();
                        self.uploads[i] = row;
                        proof {
                            assert forall|p: int, q: int|
                                0 <= p < q < self.uploads@.len() implies self.uploads@[p].id@
                                != self.uploads@[q].id@ by {
                                assert(old(self).uploads@[p].id@ != old(self).uploads@[q].id@);
                            }
                            assert forall|k: int|
                                0 <= k < self.uploads@.len() implies (
                                #[trigger] self.uploads@[k]).wf() by {
                                assert(old(self).uploads@[k].wf());
                                if k != i as int {
                                    assert(self.uploads@[k] == old(self).uploads@[k]);
                                }
                            }
                        }
                        return Ok(ret);
                    },
                    UploadState::Finalized => {
                        return Err(FinalizeError::AlreadyFinalized);
                    },
                    UploadState::Consumed => {
                        return Err(FinalizeError::AlreadyConsumed);
                    },
                    UploadState::Expired => {
                        return Err(FinalizeError::Expired);
                    },
                }
            }
            i += 1;
        }
        proof {
            assert(!old(self).has_upload(id@));
        }
        Err(FinalizeError::NotFound)
    }

    /// Finalizes an upload, stamped with the current wall clock.
    pub fn finalize(&mut self, id: &str, size_bytes: i64, file_count: i64) -> (r: Result<
        Upload,
        FinalizeError,
    >)
        requires
            old(self).wf(),
            size_bytes >= 0,
            file_count >= 0,
        ensures
            final(self).wf(),
            exists|now: i64|
                valid_now(now) && #[trigger] finalize_post(
                    *old(self),
                    *final(self),
                    id@,
                    size_bytes,
                    file_count,
                    now,
                    r,
                ),
    {
        let now = crate::clock::now_seconds();
        let r = self.finalize_at(id, size_bytes, file_count, now);
        proof {
            assert(finalize_post(*old(self), *self, id@, size_bytes, file_count, now, r));
        }
        r
    }

    /// Links a consumed upload to the job that consumed it and stamps
    /// `consumed_at`. No precondition on the prior state is enforced here;
    /// callers only consume finalized uploads. A missing id changes nothing.
    pub fn consume_at(&mut self, id: &str, job_id: String, now: i64)
        requires
            old(self).wf(),
            valid_now(now),
        ensures
            final(self).wf(),
            old(self).has_upload(id@) ==> final(self).uploads@ == old(self).uploads@.update(
                old(self).upload_idx(id@),
                Upload {
                    state: UploadState::Consumed,
                    consumed_at: Some(now),
                    job_id: Some(job_id),
                    ..old(self).upload_of(id@)
                },
            ),
            !old(self).has_upload(id@) ==> final(self).uploads@ == old(self).uploads@,
    {
        let n = self.uploads.len();
        let mut i: usize = 0;
        while i < n
            invariant
                self == old(self),
                old(self).wf(),
                valid_now(now),
                i <= n,
                n == self.uploads@.len(),
                forall|k: int| 0 <= k < i ==> (#[trigger] self.uploads@[k]).id@ != id@,
            decreases n - i,
        {
            if str_eq(self.uploads[i].id.as_str(), id) {
                proof {
                    old(self).lemma_upload_idx_is(id@, i as int);
                }
                let mut row = self.uploads[i].clone();
                row.state = UploadState::Consumed;
                row.consumed_at = Some(now);
                row.job_id = Some(job_id);
                self.uploads[i] = row;
                proof {
                    assert forall|p: int, q: int|
                        0 <= p < q < self.uploads@.len() implies self.uploads@[p].id@
                        != self.uploads@[q].id@ by {
                        assert(old(self).uploads@[p].id@ != old(self).uploads@[q].id@);
                    }
                    assert forall|k: int|
                        0 <= k < self.uploads@.len() implies (#[trigger] self.uploads@[k]).wf() by {
                        assert(old(self).uploads@[k].wf());
                        if k != i as int {
                            assert(self.uploads@[k] == old(self).uploads@[k]);
                        }
                    }
                }
                return;
            }
            i += 1;
        }
        proof {
            assert(!old(self).has_upload(id@));
        }
    }

    /// Consumes an upload, stamped with the current wall clock.
    pub fn consume(&mut self, id: &str, job_id: String)
        requires
            old(self).wf(),
        ensures
            final(self).wf(),
            exists|now: i64|
                valid_now(now) && #[trigger] consume_post(
                    *old(self),
                    *final(self),
                    id@,
                    job_id,
                    now,
                ),
    {
        let ghost jid = job_id;
        let now = crate::clock::now_seconds();
        self.consume_at(id, job_id, now);
        proof {
            assert(consume_post(*old(self), *self, id@, jid, now));
        }
    }

    /// Soft delete: still-staged uploads (uploading or finalized) are marked
    /// expired; returns whether a row actually changed, so callers can tell
    /// "already gone" from "deleted".
    pub fn delete(&mut self, id: &str) -> (r: bool)
        requires
            old(self).wf(),
        ensures
            final(self).wf(),
            r == (old(self).has_upload(id@) && old(self).upload_of(id@).state.occupies_disk()),
            r ==> final(self).uploads@ == old(self).uploads@.update(
                old(self).upload_idx(id@),
                Upload { state: UploadState::Expired, ..old(self).upload_of(id@) },
            ),
            !r ==> final(self).uploads@ == old(self).uploads@,
    {
        let n = self.uploads.len();
        let mut i: usize = 0;
        while i < n
            invariant
                self == old(self),
                old(self).wf(),
                i <= n,
                n == self.uploads@.len(),
                forall|k: int| 0 <= k < i ==> (#[trigger] self.uploads@[k]).id@ != id@,
            decreases n - i,
        {
            if str_eq(self.uploads[i].id.as_str(), id) {
                proof {
                    old(self).lemma_upload_idx_is(id@, i as int);
                }
                match self.uploads[i].state {
                    UploadState::Uploading | UploadState::Finalized => {
                        let mut row = self.uploads[i].clone();
                        row.state = UploadState::Expired;
                        self.uploads[i] = row;
                        proof {
                            assert forall|p: int, q: int|
                                0 <= p < q < self.uploads@.len() implies self.uploads@[p].id@
                                != self.uploads@[q].id@ by {
                                assert(old(self).uploads@[p].id@ != old(self).uploads@[q].id@);
                            }
                            assert forall|k: int|
                                0 <= k < self.uploads@.len() implies (
                                #[trigger] self.uploads@[k]).wf() by {
                                assert(old(self).uploads@[k].wf());
                                if k != i as int {
                                    assert(self.uploads@[k] == old(self).uploads@[k]);
                                }
                            }
                        }
                        return true;
                    },
                    _ => {
                        return false;
                    },
                }
            }
            i += 1;
        }
        proof {
            assert(!old(self).has_upload(id@));
        }
        false
    }

    /// Marks an upload expired whatever its state. A missing id changes
    /// nothing.
    pub fn mark_expired(&mut self, id: &str)
        requires
            old(self).wf(),
        ensures
            final(self).wf(),
            old(self).has_upload(id@) ==> final(self).uploads@ == old(self).uploads@.update(
                old(self).upload_idx(id@),
                Upload { state: UploadState::Expired, ..old(self).upload_of(id@) },
            ),
            !old(self).has_upload(id@) ==> final(self).uploads@ == old(self).uploads@,
    {
        let n = self.uploads.len();
        let mut i: usize = 0;
        while i < n
            invariant
                self == old(self),
                old(self).wf(),
                i <= n,
                n == self.uploads@.len(),
                forall|k: int| 0 <= k < i ==> (#[trigger] self.uploads@[k]).id@ != id@,
            decreases n - i,
        {
            if str_eq(self.uploads[i].id.as_str(), id) {
                proof {
                    old(self).lemma_upload_idx_is(id@, i as int);
                }
                let mut row = self.uploads[i].clone();
                row.state = UploadState::Expired;
                self.uploads[i] = row;
                proof {
                    assert forall|p: int, q: int|
                        0 <= p < q < self.uploads@.len() implies self.uploads@[p].id@
                        != self.uploads@[q].id@ by {
                        assert(old(self).uploads@[p].id@ != old(self).uploads@[q].id@);
                    }
                    assert forall|k: int|
                        0 <= k < self.uploads@.len() implies (#[trigger] self.uploads@[k]).wf() by {
                        assert(old(self).uploads@[k].wf());
                        if k != i as int {
                            assert(self.uploads@[k] == old(self).uploads@[k]);
                        }
                    }
                }
                return;
            }
            i += 1;
        }
        proof {
            assert(!old(self).has_upload(id@));
        }
    }

    /// Total staging-disk usage: the sum of `size_bytes` over uploads in
    /// `Uploading` or `Finalized` state only, capped at `i64::MAX`.
    pub fn get_total_disk_usage(&self) -> (r: i64)
        requires
            self.wf(),
        ensures
            r as int == cap_i64(disk_usage(self.uploads@)),
            r >= 0,
    {
        let n = self.uploads.len();
        let mut total: i64 = 0;
        let mut i: usize = 0;
        while i < n
            invariant
                self.wf(),
                i <= n,
                n == self.uploads@.len(),
                total >= 0,
                total as int == cap_i64(disk_usage(self.uploads@.take(i as int))),
            decreases n - i,
        {
            proof {
                assert(self.uploads@.take(i + 1).drop_last() =~= self.uploads@.take(i as int));
                assert(self.uploads@.take(i + 1).last() == self.uploads@[i as int]);
                assert(self.uploads@[i as int].wf());
                assert(forall|k: int|
                    0 <= k < self.uploads@.take(i as int).len() ==> (#[trigger] self.uploads@.take(
                        i as int,
                    )[k]).wf());
                lemma_disk_usage_nonneg(self.uploads@.take(i as int));
            }
            match self.uploads[i].state {
                UploadState::Uploading | UploadState::Finalized => {
                    match &self.uploads[i].size_bytes {
                        Some(s) => {
                            total = sat_add_i64(total, *s);
                        },
                        None => {},
                    }
                },
                _ => {},
            }
            i += 1;
        }
        proof {
            assert(self.uploads@.take(n as int) =~= self.uploads@);
        }
        total
    }

    /// The still-staged uploads whose expiry has passed, for sweep-style
    /// reclamation.
    pub fn get_expired_at(&self, now: i64) -> (r: Vec<Upload>)
        requires
            self.wf(),
        ensures
            r@ == self.uploads@.filter(expired_pred(now)),
    {
        let n = self.uploads.len();
        let mut out: Vec<Upload> = Vec::new();
        let mut i: usize = 0;
        while i < n
            invariant
                self.wf(),
                i <= n,
                n == self.uploads@.len(),
                out@ == self.uploads@.take(i as int).filter(expired_pred(now)),
            decreases n - i,
        {
            proof {
                crate::seqs::lemma_filter_take_step(self.uploads@, expired_pred(now), i as int);
            }
            let staged = match self.uploads[i].state {
                UploadState::Uploading | UploadState::Finalized => true,
                _ => false,
            };
            let past_expiry = match &self.uploads[i].expires_at {
                Some(e) => *e < now,
                None => false,
            };
            if staged && past_expiry {
                out.push(self.uploads[i].clone());
            }
            i += 1;
        }
        proof {
            assert(self.uploads@.take(n as int) =~= self.uploads@);
        }
        out
    }

    /// The expired uploads as of the current wall clock.
    pub fn get_expired(&self) -> (r: Vec<Upload>)
        requires
            self.wf(),
        ensures
            exists|now: i64|
                valid_now(now) && r@ == self.uploads@.filter(#[trigger] expired_pred(now)),
    {
        let now = crate::clock::now_seconds();
        let r = self.get_expired_at(now);
        proof {
            assert(r@ == self.uploads@.filter(expired_pred(now)));
        }
        r
    }
}

} // verus!
