//! Spacing of the hourly history kept beside each device's latest reading.
use vstd::prelude::*;

verus! {

/// A new hourly record is written only when the previous one is older than
/// this, in milliseconds (thirty minutes).
pub const HOURLY_SPACING_MS: i64 = 1_800_000;

/// Whether a reading stored at `now_ms` also starts a new hourly record,
/// given when the device's latest hourly record was written, if ever.
pub open spec fn hourly_due(now_ms: int, last_hourly_ms: Option<i64>) -> bool {
    match last_hourly_ms {
        None => true,
        Some(t) => now_ms - t > HOURLY_SPACING_MS,
    }
}

/// Decides whether the reading being stored is also appended to the hourly
/// history.
pub fn hourly_record_due(now_ms: i64, last_hourly_ms: Option<i64>) -> (r: bool)
    ensures
        r == hourly_due(now_ms as int, last_hourly_ms),
{
    match last_hourly_ms {
        None => true,
        Some(t) => (now_ms as i128) - (t as i128) > (HOURLY_SPACING_MS as i128),
    }
}

} // verus!
