//! Wall-clock readings.

use vstd::prelude::*;

verus! {

/// Milliseconds since the Unix epoch as `SystemTime::now()` reports them,
/// or `None` when the clock is set before the epoch. The contract claims
/// nothing: the reading depends on the machine's clock.
#[verifier::external_body]
pub(crate) fn unix_time_ms() -> (r: Option<u128>) {
    std::time::SystemTime::now().duration_since(std::time::UNIX_EPOCH).ok().map(|d| d.as_millis())
}

/// A clock reading, or 0 for a clock set before the epoch.
pub fn millis_or_zero(reading: Option<u128>) -> (ms: u128)
    ensures
        ms == match reading {
            Some(m) => m,
            None => 0,
        },
{
    match reading {
        Some(m) => m,
        None => 0,
    }
}

/// Milliseconds since the Unix epoch, 0 for a clock set before it. No
/// clause fixes the value: it is whatever the machine's clock reads.
pub fn now_ms() -> u128 {
    millis_or_zero(unix_time_ms())
}

/// The timestamp of an analysis frame: milliseconds since the Unix epoch,
/// 0 for a clock set before it. No clause fixes the value: it is whatever
/// the machine's clock reads.
pub fn timestamp_ms() -> u128 {
    millis_or_zero(unix_time_ms())
}

} // verus!
