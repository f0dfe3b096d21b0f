//! When each periodic task runs.

use vstd::prelude::*;
use rand::Rng;

verus! {

/// Seconds between two heartbeats.
pub const HEARTBEAT_SECS: u64 = 300;

/// Seconds between two ticks of the position monitor.
pub const MONITOR_SECS: u64 = 5;

/// Seconds between two rounds of housekeeping.
pub const HOUSEKEEPING_SECS: u64 = 30;

/// The shortest wait before a market scan, in seconds.
pub const SCAN_MIN_SECS: u64 = 10;

/// The longest wait before a market scan, in seconds.
pub const SCAN_MAX_SECS: u64 = 20;

/// `rand::Rng::gen_range` on `rand::thread_rng()`, over the inclusive range
/// from `low` to `high`. The contract claims that the number drawn lies in the
/// range, and nothing of which it is. `gen_range` refuses an empty range, so
/// `low` may not exceed `high`.
#[verifier::external_body]
fn random_between(low: u64, high: u64) -> (drawn: u64)
    requires
        low <= high,
    ensures
        low <= drawn <= high,
{
    rand::thread_rng().gen_range(low..=high)
}

/// The wait before the next market scan: a number of seconds drawn afresh
/// each time from the band between `SCAN_MIN_SECS` and `SCAN_MAX_SECS`, so
/// that scans do not fall into step with other processes.
pub fn next_scan_delay_secs() -> (secs: u64)
    ensures
        SCAN_MIN_SECS <= secs <= SCAN_MAX_SECS,
{
    random_between(SCAN_MIN_SECS, SCAN_MAX_SECS)
}

} // verus!
