//! Spans of time, counted in whole nanoseconds.

use vstd::prelude::*;

verus! {

/// Nanoseconds in one millisecond.
pub const NANOS_PER_MILLI: u64 = 1_000_000;

/// A non-negative span of time, counted in whole nanoseconds. Its view is
/// that nanosecond count.
#[derive(Clone, Copy, PartialEq, Eq, Structural, PartialOrd, Ord, Hash, Debug)]
pub struct Duration {
    nanos: u64,
}

impl View for Duration {
    type V = u64;

    closed spec fn view(&self) -> u64 {
        self.nanos
    }
}

impl Duration {
    /// The span of exactly `nanos` nanoseconds.
    pub fn from_nanos(nanos: u64) -> (r: Duration)
        ensures
            r@ == nanos,
    {
        Duration { nanos }
    }

    /// The span of `millis` milliseconds, saturating at the largest
    /// representable span.
    pub fn from_millis(millis: u64) -> (r: Duration)
        ensures
            r@ == if millis * NANOS_PER_MILLI <= u64::MAX {
                (millis * NANOS_PER_MILLI) as u64
            } else {
                u64::MAX
            },
    {
        proof {
            assert((millis as int) * (NANOS_PER_MILLI as int) <= (u64::MAX as int) * (
            NANOS_PER_MILLI as int)) by (nonlinear_arith)
                requires
                    0 <= millis as int <= u64::MAX as int,
            ;
        }
        let wide: u128 = (millis as u128) * (NANOS_PER_MILLI as u128);
        if wide > (u64::MAX as u128) {
            Duration { nanos: u64::MAX }
        } else {
            Duration { nanos: wide as u64 }
        }
    }

    /// The whole nanoseconds this span holds.
    pub fn as_nanos(&self) -> (r: u64)
        ensures
            r == self@,
    {
        self.nanos
    }

    /// The whole milliseconds this span holds, truncated.
    pub fn as_millis(&self) -> (r: u64)
        ensures
            r == self@ / NANOS_PER_MILLI,
    {
        self.nanos / NANOS_PER_MILLI
    }
}

} // verus!
