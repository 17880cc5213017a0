//! The wall clock, read once per operation and clamped into the range the
//! model supports.

use vstd::prelude::*;
use crate::{valid_now, MAX_TIME_SECONDS};

verus! {

/// Relies on chrono's `Utc::now` and `DateTime::timestamp`: the current wall
/// clock as whole seconds since the Unix epoch. Nothing can be promised of
/// a clock reading.
#[verifier::external_body]
fn now_seconds_raw() -> i64 {
    chrono::Utc::now().timestamp()
}

/// The current wall clock in seconds, clamped into the supported range.
pub fn now_seconds() -> (r: i64)
    ensures
        valid_now(r),
{
    let t = now_seconds_raw();
    if t < 0 {
        0
    } else if t > MAX_TIME_SECONDS {
        MAX_TIME_SECONDS
    } else {
        t
    }
}

} // verus!
