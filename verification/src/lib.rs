//! A verified job-execution control plane: job admission and lifecycle,
//! upload staging lifecycle, quota-based admission control, and the
//! container-runtime command protocol.
//!
//! The repositories hold the durable state in memory; every controller
//! decision re-reads that state. Calls that leave the process (the container
//! runtime, HTTP, the filesystem walk) live in the surrounding application,
//! which drives the verified decision functions here.

use vstd::prelude::*;

pub mod clock;
pub mod db;
pub mod jobs;
pub mod laws;
pub mod models;
pub mod podman;
pub mod seqs;
pub mod uploads;
pub mod text;

verus! {

/// The largest wall-clock reading (seconds since the Unix epoch) the model
/// supports; far enough out that derived arithmetic cannot overflow `i64`.
pub const MAX_TIME_SECONDS: i64 = 4_000_000_000_000;

/// A timestamp in the supported range. Stored expiry times may additionally
/// carry a TTL on top of a valid clock reading.
pub open spec fn valid_time(t: i64) -> bool {
    0 <= t <= MAX_TIME_SECONDS + 4000
}

/// A wall-clock reading accepted by the state-changing operations: leaves
/// room for the longest TTL to be added without leaving the valid range.
pub open spec fn valid_now(t: i64) -> bool {
    0 <= t <= MAX_TIME_SECONDS
}

/// A non-negative quantity capped at what an `i32` can hold.
pub open spec fn cap_i32(x: int) -> int {
    if x <= i32::MAX {
        x
    } else {
        i32::MAX as int
    }
}

/// A non-negative quantity capped at what an `i64` can hold.
pub open spec fn cap_i64(x: int) -> int {
    if x <= i64::MAX {
        x
    } else {
        i64::MAX as int
    }
}

} // verus!
