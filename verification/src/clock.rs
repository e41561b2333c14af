//! Ingestion timestamps: milliseconds since the Unix epoch.

use vstd::prelude::*;

verus! {

/// Trusted: calls `SystemTime::elapsed` on `std::time::UNIX_EPOCH` and
/// reads the duration in milliseconds; `None` where the clock stands before
/// the epoch. It depends on the time, so nothing is stated about it.
#[verifier::external_body]
fn millis_since_epoch() -> (elapsed: Option<u128>) {
    match std::time::UNIX_EPOCH.elapsed() {
        Ok(duration) => Some(duration.as_millis()),
        Err(_) => None,
    }
}

/// The timestamp for a clock reading: the reading itself where it fits,
/// the largest timestamp where it does not, and 0 for a clock that stands
/// before the epoch.
pub open spec fn timestamp_of(reading: Option<u128>) -> u64 {
    match reading {
        Some(millis) => if millis <= u64::MAX {
            millis as u64
        } else {
            u64::MAX
        },
        None => 0,
    }
}

/// Turns a clock reading into a timestamp.
pub fn timestamp_from(reading: Option<u128>) -> (stamp: u64)
    ensures
        stamp == timestamp_of(reading),
{
    match reading {
        Some(millis) => if millis <= u64::MAX as u128 {
            millis as u64
        } else {
            u64::MAX
        },
        None => 0,
    }
}

/// The timestamp of this moment.
pub(crate) fn timestamp_now() -> (stamp: u64) {
    timestamp_from(millis_since_epoch())
}

} // verus!
