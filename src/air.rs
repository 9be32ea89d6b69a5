//! Duty schedule of the air-bubble pump.
use vstd::prelude::*;

verus! {

/// Length of one pump cycle, ms (10 minutes).
pub const AIR_CYCLE_MS: u64 = 600_000;

/// Time the pump runs at the start of each cycle, ms (30 seconds).
pub const AIR_ON_MS: u64 = 30_000;

/// Whether the pump runs at `now_ms`: for the first 30 seconds of every
/// 10 minutes.
pub fn bubbles_on(now_ms: u64) -> (r: bool)
    ensures
        r == (now_ms % AIR_CYCLE_MS < AIR_ON_MS),
{
    now_ms % AIR_CYCLE_MS < AIR_ON_MS
}

} // verus!
