//! Trusted readings of the outside clocks.
//!
//! The coarse fallback strategy reads an always-available OS time source
//! that already reports nanoseconds, so no conversion factor beyond the
//! identity is needed. What a clock returns depends on the moment of the
//! call, so nothing relates one reading to the next here; every consumer
//! states what holds of its result whatever the readings were.

use vstd::prelude::*;

verus! {

/// Relies on `web_time::SystemTime::now` and
/// `SystemTime::duration_since(UNIX_EPOCH)`: the current wall-clock time as
/// whole nanoseconds since the unix epoch, or zero when the clock reads
/// before the epoch.
#[verifier::external_body]
pub(crate) fn current_cycle_fallback() -> u64 {
    web_time::SystemTime::now().duration_since(web_time::UNIX_EPOCH).map(
        |d| d.as_nanos() as u64,
    ).unwrap_or(0)
}

/// Relies on `coarsetime::Instant::now_without_cache_update`, which reads
/// the coarse monotonic OS clock as ticks, and on
/// `coarsetime::Duration::from_ticks` / `as_nanos`, which convert those
/// ticks to whole nanoseconds.
#[verifier::external_body]
pub(crate) fn current_cycle_fallback_coarse() -> u64 {
    let coarse = coarsetime::Instant::now_without_cache_update();
    coarsetime::Duration::from_ticks(coarse.as_ticks()).as_nanos()
}

} // verus!
