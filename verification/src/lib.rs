//! A monotonic clock built around a raw cycle counter and a one-shot
//! calibration that turns cycle readings into nanoseconds.
//!
//! The library models time as plain cycle values. A
//! [`calibration::Calibration`] carries the cycles-to-nanoseconds conversion
//! as an exact rational (total wall nanoseconds over total cycles), computed
//! once by [`calibration::calibrate`] from paired cycle/wall-clock samples
//! and validated for plausibility, per-sample variance and cross-core skew.
//! An [`Instant`] wraps one cycle reading and exposes clamped duration
//! arithmetic; an [`Anchor`] correlates one cycle reading with absolute unix
//! time so later instants can be projected onto the unix timeline; an
//! [`instant::Atomic`] publishes one instant across threads in a single
//! machine word.
//!
//! Reading a hardware cycle counter takes platform-specific counter
//! instructions and process-global startup state, which stand outside this
//! library; the build here always uses the coarse strategy, whose counter
//! already reports nanoseconds, so the process calibration is the identity
//! ratio and [`is_tsc_available`] reports `false`. A caller with its own
//! counter feeds its samples to [`calibration::calibrate`] and carries the
//! resulting [`calibration::Calibration`] through
//! [`Instant::duration_since_with`] and [`Anchor::from_parts`].

use vstd::prelude::*;

pub mod calibration;
pub mod duration;
pub mod instant;
mod source;

pub use calibration::Calibration;
pub use duration::Duration;
pub use instant::Anchor;
pub use instant::Atomic;
pub use instant::Instant;

verus! {

/// How many paired samples one run of source calibration takes.
pub const CALIBRATION_ROUNDS: usize = 8;

/// How many clock reads make up the busy-wait between the two ends of one
/// calibration sample.
pub const CALIBRATION_SPIN_READS: usize = 64;

/// Whether the hardware cycle-counter strategy is active for this process.
///
/// The hardware strategy needs platform-specific counter instructions,
/// which stand outside this library; the library itself always reads the
/// coarse fallback source, so this returns the same value on every call for
/// the life of the process.
pub fn is_tsc_available() -> (r: bool)
    ensures
        !r,
{
    false
}

/// The calibration in effect for this process: with the coarse strategy
/// active, the identity ratio, fixed for the life of the process.
pub open spec fn spec_active_calibration() -> Calibration {
    Calibration::spec_fallback()
}

/// Returns the process calibration.
pub fn active_calibration() -> (r: Calibration)
    ensures
        r == spec_active_calibration(),
        r.wf(),
{
    Calibration::fallback()
}

/// Reads the active cycle source. With the coarse strategy active, the
/// counter already reports wall-clock nanoseconds; the reading is
/// meaningless on its own and is only compared and converted through the
/// process calibration.
pub fn current_cycle() -> u64 {
    source::current_cycle_fallback()
}

/// Reads the alternative coarse fallback source, the coarse monotonic OS
/// clock: cheaper than the system wall clock, at the price of a coarser
/// granularity, and counted from an arbitrary origin rather than the unix
/// epoch.
pub fn current_cycle_coarse() -> u64 {
    source::current_cycle_fallback_coarse()
}

/// Busy-waits for a short, bounded stretch by reading the fallback clock a
/// fixed number of times.
fn calibration_spin() {
    let mut k: usize = 0;
    while k < CALIBRATION_SPIN_READS
        decreases CALIBRATION_SPIN_READS - k,
    {
        let _pause: u64 = source::current_cycle_fallback();
        k = k + 1;
    }
}

/// Samples the active cycle source against the wall clock and validates the
/// correlation: takes [`CALIBRATION_ROUNDS`] paired samples, each spanning a
/// short busy-wait, and hands them to [`calibration::calibrate`]. The clock
/// readings depend on the moment of each call, so what holds of the result
/// for every outcome is that it is a well-formed calibration: either the
/// validated aggregate ratio of the samples taken, or the fallback.
pub fn calibrate_cycle_source() -> (r: Calibration)
    ensures
        r.wf(),
{
    let mut samples: Vec<calibration::Sample> = Vec::new();
    let mut round: usize = 0;
    while round < CALIBRATION_ROUNDS
        decreases CALIBRATION_ROUNDS - round,
    {
        let cycle_start = current_cycle();
        let wall_start = source::current_cycle_fallback();
        calibration_spin();
        let cycle_end = current_cycle();
        let wall_end = source::current_cycle_fallback();
        samples.push(calibration::Sample { cycle_start, wall_start, cycle_end, wall_end });
        round = round + 1;
    }
    calibration::calibrate(&samples)
}

} // verus!
