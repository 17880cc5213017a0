//! Upload records: staged input files with an expiry-driven lifecycle.

use vstd::prelude::*;
use vstd::string::*;
use crate::valid_time;

verus! {

/// An upload's lifecycle state.
///
/// Transitions: `Uploading -> Finalized -> Consumed`, and
/// `Uploading | Finalized -> Expired`. `Consumed` and `Expired` are final.
#[derive(Clone, Copy, Debug, PartialEq, Eq, Structural)]
pub enum UploadState {
    Uploading,
    Finalized,
    Consumed,
    Expired,
}

impl UploadState {
    /// The storage/wire name of this state.
    pub open spec fn state_str(self) -> Seq<char> {
        match self {
            UploadState::Uploading => "uploading"@,
            UploadState::Finalized => "finalized"@,
            UploadState::Consumed => "consumed"@,
            UploadState::Expired => "expired"@,
        }
    }

    pub fn as_str(&self) -> (r: &'static str)
        ensures
            r@ == self.state_str(),
    {
        match self {
            UploadState::Uploading => "uploading",
            UploadState::Finalized => "finalized",
            UploadState::Consumed => "consumed",
            UploadState::Expired => "expired",
        }
    }

    /// Whether size and file count count toward disk usage: only uploads
    /// still staged (uploading or finalized) occupy quota.
    pub open spec fn occupies_disk(self) -> bool {
        self is Uploading || self is Finalized
    }
}

/// An upload record. Times are seconds since the Unix epoch.
#[derive(Debug)]
pub struct Upload {
    pub id: String,
    pub user_id: String,
    pub state: UploadState,
    pub size_bytes: Option<i64>,
    pub file_count: Option<i64>,
    pub created_at: i64,
    pub finalized_at: Option<i64>,
    pub consumed_at: Option<i64>,
    pub expires_at: Option<i64>,
    pub job_id: Option<String>,
}

impl Upload {
    /// Model validity: timestamps lie in the supported range and sizes are
    /// non-negative.
    pub open spec fn wf(self) -> bool {
        &&& valid_time(self.created_at)
        &&& (self.finalized_at matches Some(t) ==> valid_time(t))
        &&& (self.consumed_at matches Some(t) ==> valid_time(t))
        &&& (self.expires_at matches Some(t) ==> valid_time(t))
        &&& (self.size_bytes matches Some(s) ==> s >= 0)
        &&& (self.file_count matches Some(c) ==> c >= 0)
    }

    /// The bytes this upload currently occupies on the staging disk.
    pub open spec fn disk_bytes(self) -> int {
        if self.state.occupies_disk() {
            match self.size_bytes {
                Some(s) => s as int,
                None => 0,
            }
        } else {
            0
        }
    }
}

fn clone_opt_string(o: &Option<String>) -> (r: Option<String>)
    ensures
        r == *o,
{
    match o {
        Some(s) => Some(s.clone()),
        None => None,
    }
}

fn clone_opt_i64(o: &Option<i64>) -> (r: Option<i64>)
    ensures
        r == *o,
{
    match o {
        Some(v) => Some(*v),
        None => None,
    }
}

impl Clone for Upload {
    fn clone(&self) -> (r: Self)
        ensures
            r == *self,
    {
        Upload {
            id: self.id.clone(),
            user_id: self.user_id.clone(),
            state: self.state,
            size_bytes: clone_opt_i64(&self.size_bytes),
            file_count: clone_opt_i64(&self.file_count),
            created_at: self.created_at,
            finalized_at: clone_opt_i64(&self.finalized_at),
            consumed_at: clone_opt_i64(&self.consumed_at),
            expires_at: clone_opt_i64(&self.expires_at),
            job_id: clone_opt_string(&self.job_id),
        }
    }
}

/// The projection of an upload returned by the upload endpoints.
#[derive(Debug)]
pub struct UploadResponse {
    pub upload_id: String,
    pub state: UploadState,
    pub size_bytes: Option<i64>,
    pub file_count: Option<i64>,
    pub created_at: i64,
    pub finalized_at: Option<i64>,
    pub expires_at: Option<i64>,
}

impl UploadResponse {
    pub open spec fn of_upload(u: Upload) -> UploadResponse {
        UploadResponse {
            upload_id: u.id,
            state: u.state,
            size_bytes: u.size_bytes,
            file_count: u.file_count,
            created_at: u.created_at,
            finalized_at: u.finalized_at,
            expires_at: u.expires_at,
        }
    }

    pub fn from_upload(u: &Upload) -> (r: UploadResponse)
        ensures
            r == UploadResponse::of_upload(*u),
    {
        UploadResponse {
            upload_id: u.id.clone(),
            state: u.state,
            size_bytes: clone_opt_i64(&u.size_bytes),
            file_count: clone_opt_i64(&u.file_count),
            created_at: u.created_at,
            finalized_at: clone_opt_i64(&u.finalized_at),
            expires_at: clone_opt_i64(&u.expires_at),
        }
    }
}

/// Configuration for the upload staging area.
#[derive(Clone, Debug)]
pub struct UploadConfig {
    pub upload_dir: String,
    pub max_upload_size_bytes: i64,
    pub max_total_disk_bytes: i64,
    pub ttl_uploading_minutes: i32,
    pub ttl_finalized_minutes: i32,
}

impl Default for UploadConfig {
    fn default() -> (r: Self)
        ensures
            r.upload_dir@ == "/tmp/flashpods/uploads"@,
            r.max_upload_size_bytes == 2147483648i64,
            r.max_total_disk_bytes == 10737418240i64,
            r.ttl_uploading_minutes == 30,
            r.ttl_finalized_minutes == 60,
    {
        UploadConfig {
            upload_dir: String::from_str("/tmp/flashpods/uploads"),
            max_upload_size_bytes: 2147483648,  // 2 GiB
            max_total_disk_bytes: 10737418240,  // 10 GiB
            ttl_uploading_minutes: 30,
            ttl_finalized_minutes: 60,
        }
    }
}

} // verus!
