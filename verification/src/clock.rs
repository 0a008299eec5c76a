//! Wall-clock time, read where a decision needs the present moment.

use vstd::prelude::*;

verus! {

/// Seconds since the Unix epoch (`SystemTime::now`), or 0 if the clock is before it.
/// Nothing is promised of the value: it is the machine's clock.
#[verifier::external_body]
pub(crate) fn unix_now_secs() -> u64 {
    std::time::SystemTime::now()
        .duration_since(std::time::UNIX_EPOCH)
        .map(|d| d.as_secs())
        .unwrap_or(0)
}

/// Milliseconds since the Unix epoch (`SystemTime::now`), or 0 if the clock is before it.
/// Nothing is promised of the value: it is the machine's clock.
#[verifier::external_body]
pub(crate) fn unix_now_millis() -> u64 {
    std::time::SystemTime::now()
        .duration_since(std::time::UNIX_EPOCH)
        .map(|d| d.as_millis() as u64)
        .unwrap_or(0)
}

} // verus!
