//! One-shot calibration of a cycle counter against a wall clock.
//!
//! A [`Sample`] pairs two back-to-back readings of the cycle counter and the
//! wall clock, taken a short spin apart. [`calibrate`] filters out implausible
//! samples, sums the remaining deltas into one exact rational conversion
//! factor (nanoseconds per cycle), and validates the result: every accepted
//! sample's own ratio must lie within a fixed relative tolerance of the
//! aggregate, and the raw cycle readings must never step backwards between
//! samples (a backward step signals a counter that is not synchronized across
//! cores). On any validation failure the counter is declared untrustworthy
//! and the identity [`Calibration::fallback`] is returned, under which the
//! coarse nanosecond counter is used as-is.

use vstd::prelude::*;
use vstd::arithmetic::div_mod::lemma_div_is_ordered;
use vstd::arithmetic::mul::lemma_mul_inequality;

verus! {

/// Allowed relative deviation of one sample's ratio from the aggregate
/// ratio, as a fraction `1 / TOLERANCE_DENOMINATOR` of the aggregate.
pub const TOLERANCE_DENOMINATOR: u64 = 10;

/// One paired observation of the cycle counter and the wall clock: a
/// (cycle, wall) reading pair taken at the start and another at the end of a
/// short busy-wait.
#[derive(Clone, Copy, PartialEq, Eq, Structural, Debug)]
pub struct Sample {
    /// Cycle-counter reading at the start of the interval.
    pub cycle_start: u64,
    /// Wall-clock reading (nanoseconds) at the start of the interval.
    pub wall_start: u64,
    /// Cycle-counter reading at the end of the interval.
    pub cycle_end: u64,
    /// Wall-clock reading (nanoseconds) at the end of the interval.
    pub wall_end: u64,
}

/// A sample is plausible when both clocks moved strictly forward over its
/// interval; a wall clock that stood still or went backwards, or a cycle
/// delta of zero, signals scheduling noise, reordering, or a virtualization
/// anomaly, and such a sample is discarded rather than treated as fatal.
pub open spec fn sample_plausible(s: Sample) -> bool {
    s.wall_end > s.wall_start && s.cycle_end > s.cycle_start
}

/// Wall-clock nanoseconds that passed during the sample's interval.
pub open spec fn wall_delta(s: Sample) -> int {
    s.wall_end - s.wall_start
}

/// Cycles counted during the sample's interval.
pub open spec fn cycle_delta(s: Sample) -> int {
    s.cycle_end - s.cycle_start
}

/// Total wall-clock nanoseconds over the plausible samples.
pub open spec fn sum_wall(samples: Seq<Sample>) -> int
    decreases samples.len(),
{
    if samples.len() == 0 {
        0
    } else {
        sum_wall(samples.drop_last()) + if sample_plausible(samples.last()) {
            wall_delta(samples.last())
        } else {
            0
        }
    }
}

/// Total cycles over the plausible samples.
pub open spec fn sum_cycle(samples: Seq<Sample>) -> int
    decreases samples.len(),
{
    if samples.len() == 0 {
        0
    } else {
        sum_cycle(samples.drop_last()) + if sample_plausible(samples.last()) {
            cycle_delta(samples.last())
        } else {
            0
        }
    }
}

/// How many samples are plausible.
pub open spec fn count_plausible(samples: Seq<Sample>) -> int
    decreases samples.len(),
{
    if samples.len() == 0 {
        0
    } else {
        count_plausible(samples.drop_last()) + if sample_plausible(samples.last()) {
            1int
        } else {
            0int
        }
    }
}

/// The raw cycle readings never step backwards from one sample to the next.
/// A backward step between samples taken on one thread means the counter is
/// not synchronized across the cores the thread ran on, so no single
/// conversion factor can be trusted.
pub open spec fn skew_free(samples: Seq<Sample>) -> bool {
    forall|i: int|
        0 <= i && i + 1 < samples.len() ==> (#[trigger] samples[i + 1]).cycle_start
            >= samples[i].cycle_end
}

/// One plausible sample's ratio `wall_delta / cycle_delta` lies within the
/// fixed relative tolerance of the aggregate ratio
/// `total_wall / total_cycle`; stated multiplied out, over the exact
/// integers:
/// `|wall_delta * total_cycle - total_wall * cycle_delta|
///   <= (total_wall * cycle_delta) / TOLERANCE_DENOMINATOR`.
pub open spec fn within_tolerance(s: Sample, total_wall: int, total_cycle: int) -> bool {
    let lhs = wall_delta(s) * total_cycle;
    let rhs = total_wall * cycle_delta(s);
    (if lhs >= rhs {
        lhs - rhs
    } else {
        rhs - lhs
    }) <= rhs / (TOLERANCE_DENOMINATOR as int)
}

/// Calibration succeeds when at least one sample survived filtering, the
/// summed deltas fit the machine word they are stored in, the cycle counter
/// never stepped backwards between samples, and every plausible sample's own
/// ratio agrees with the aggregate within tolerance.
pub open spec fn calibration_succeeds(samples: Seq<Sample>) -> bool {
    &&& count_plausible(samples) >= 1
    &&& sum_wall(samples) <= u64::MAX
    &&& sum_cycle(samples) <= u64::MAX
    &&& skew_free(samples)
    &&& forall|i: int|
        0 <= i < samples.len() ==> (sample_plausible(#[trigger] samples[i]) ==> within_tolerance(
            samples[i],
            sum_wall(samples),
            sum_cycle(samples),
        ))
}

/// The outcome of calibration: whether the calibrated counter passed
/// validation, and the conversion factor as an exact rational, nanoseconds
/// per cycle. The factor is immutable once computed; under the fallback it is
/// the identity ratio, because the coarse counter already reports
/// nanoseconds.
#[derive(Clone, Copy, PartialEq, Eq, Structural, Debug)]
pub struct Calibration {
    /// Whether the calibrated counter passed validation and may be trusted.
    pub available: bool,
    /// Numerator of the conversion factor: total wall-clock nanoseconds.
    pub nanos_num: u64,
    /// Denominator of the conversion factor: total cycles. Always positive.
    pub nanos_den: u64,
}

impl Calibration {
    /// The conversion factor is a positive ratio.
    pub open spec fn wf(self) -> bool {
        self.nanos_num >= 1 && self.nanos_den >= 1
    }

    /// The degraded-but-correct calibration: the counter is not trusted and
    /// the factor is the identity ratio of the coarse nanosecond counter.
    pub open spec fn spec_fallback() -> Calibration {
        Calibration { available: false, nanos_num: 1, nanos_den: 1 }
    }

    /// Returns the fallback calibration.
    pub fn fallback() -> (r: Calibration)
        ensures
            r == Self::spec_fallback(),
            r.wf(),
    {
        Calibration { available: false, nanos_num: 1, nanos_den: 1 }
    }

    /// A cycle delta converted to nanoseconds: `cycles * num / den`,
    /// truncated, saturating at the largest representable value.
    pub open spec fn spec_cycles_to_nanos(self, cycles: u64) -> u64
        recommends
            self.wf(),
    {
        let exact = (cycles as int) * (self.nanos_num as int) / (self.nanos_den as int);
        if exact > u64::MAX as int {
            u64::MAX
        } else {
            exact as u64
        }
    }

    /// Converts a cycle delta to nanoseconds with this calibration's factor.
    pub fn cycles_to_nanos(&self, cycles: u64) -> (r: u64)
        requires
            self.wf(),
        ensures
            r == self.spec_cycles_to_nanos(cycles),
    {
        proof {
            assert((cycles as int) * (self.nanos_num as int) <= (u64::MAX as int) * (
            u64::MAX as int)) by (nonlinear_arith)
                requires
                    cycles as int <= u64::MAX as int,
                    self.nanos_num as int <= u64::MAX as int,
                    cycles as int >= 0,
                    self.nanos_num as int >= 0,
            ;
        }
        let wide: u128 = ((cycles as u128) * (self.nanos_num as u128)) / (self.nanos_den as u128);
        if wide > (u64::MAX as u128) {
            u64::MAX
        } else {
            wide as u64
        }
    }
}

/// The conversion is monotonic in the cycle delta: more cycles never convert
/// to fewer nanoseconds. With a fixed conversion factor, points later in
/// cycles are therefore never earlier in time.
pub proof fn lemma_cycles_to_nanos_monotonic(cal: Calibration, c1: u64, c2: u64)
    requires
        cal.wf(),
        c1 <= c2,
    ensures
        cal.spec_cycles_to_nanos(c1) <= cal.spec_cycles_to_nanos(c2),
{
    lemma_mul_inequality(c1 as int, c2 as int, cal.nanos_num as int);
    lemma_div_is_ordered(
        (c1 as int) * (cal.nanos_num as int),
        (c2 as int) * (cal.nanos_num as int),
        cal.nanos_den as int,
    );
}

/// A delta of no cycles converts to no nanoseconds, under any well-formed
/// calibration.
pub proof fn lemma_cycles_to_nanos_zero(cal: Calibration)
    requires
        cal.wf(),
    ensures
        cal.spec_cycles_to_nanos(0) == 0,
{
    assert((0u64 as int) * (cal.nanos_num as int) == 0) by (nonlinear_arith);
    vstd::arithmetic::div_mod::lemma_div_basics(cal.nanos_den as int);
}

/// Under the fallback calibration the conversion is the identity: the coarse
/// counter already counts nanoseconds, so a delta of `cycles` converts to
/// exactly `cycles` nanoseconds.
pub proof fn lemma_fallback_conversion_identity(cycles: u64)
    ensures
        Calibration::spec_fallback().spec_cycles_to_nanos(cycles) == cycles,
{
}

/// What calibration returns for a given sample set: on success, the counter
/// is declared available and the factor is the aggregate ratio of the summed
/// deltas; on any validation failure, the fallback.
pub open spec fn spec_calibrate(samples: Seq<Sample>) -> Calibration {
    if calibration_succeeds(samples) {
        Calibration {
            available: true,
            nanos_num: sum_wall(samples) as u64,
            nanos_den: sum_cycle(samples) as u64,
        }
    } else {
        Calibration::spec_fallback()
    }
}

/// Extending a prefix by one sample extends the sums and the count by that
/// sample's contribution.
proof fn lemma_prefix_step(samples: Seq<Sample>, i: int)
    requires
        0 <= i < samples.len(),
    ensures
        sum_wall(samples.take(i + 1)) == sum_wall(samples.take(i)) + if sample_plausible(
            samples[i],
        ) {
            wall_delta(samples[i])
        } else {
            0
        },
        sum_cycle(samples.take(i + 1)) == sum_cycle(samples.take(i)) + if sample_plausible(
            samples[i],
        ) {
            cycle_delta(samples[i])
        } else {
            0
        },
        count_plausible(samples.take(i + 1)) == count_plausible(samples.take(i))
            + if sample_plausible(samples[i]) {
            1int
        } else {
            0int
        },
{
    let t1 = samples.take(i + 1);
    assert(t1.drop_last() =~= samples.take(i));
    assert(t1.last() == samples[i]);
}

/// Runs the validation of [`calibration_succeeds`] over a sample set and, on
/// success, packages the aggregate ratio as the conversion factor; on any
/// failure, returns the fallback. The exact outcome for every sample set is
/// [`spec_calibrate`].
pub fn calibrate(samples: &Vec<Sample>) -> (r: Calibration)
    ensures
        r == spec_calibrate(samples@),
        r.wf(),
{
    let n = samples.len();
    let mut i: usize = 0;
    let mut wall_total: u128 = 0;
    let mut cycle_total: u128 = 0;
    let mut accepted: usize = 0;
    let mut skew_ok: bool = true;
    let mut prev_cycle_end: u64 = 0;
    while i < n
        invariant
            n == samples@.len(),
            i <= n,
            wall_total == sum_wall(samples@.take(i as int)),
            cycle_total == sum_cycle(samples@.take(i as int)),
            accepted == count_plausible(samples@.take(i as int)),
            skew_ok == skew_free(samples@.take(i as int)),
            i > 0 ==> prev_cycle_end == samples@[i - 1].cycle_end,
            wall_total <= (i as int) * (u64::MAX as int),
            cycle_total <= (i as int) * (u64::MAX as int),
        decreases n - i,
    {
        let s = samples[i];
        proof {
            lemma_prefix_step(samples@, i as int);
            lemma_sums_bound_count(samples@.take(i as int));
        }
        if s.wall_end > s.wall_start && s.cycle_end > s.cycle_start {
            wall_total = wall_total + ((s.wall_end - s.wall_start) as u128);
            cycle_total = cycle_total + ((s.cycle_end - s.cycle_start) as u128);
            accepted = accepted + 1;
        }
        let step_back = i > 0 && s.cycle_start < prev_cycle_end;
        proof {
            let t0 = samples@.take(i as int);
            let t1 = samples@.take(i as int + 1);
            if skew_ok && !step_back {
                assert forall|j: int|
                    0 <= j && j + 1 < t1.len() implies (#[trigger] t1[j + 1]).cycle_start
                    >= t1[j].cycle_end by {
                    if j + 1 < i as int {
                        assert(t0[j + 1].cycle_start >= t0[j].cycle_end);
                    }
                }
                assert(skew_free(t1));
            } else if step_back {
                let b = i as int - 1;
                assert(t1[b + 1].cycle_start < t1[b].cycle_end);
                assert(!skew_free(t1));
            } else {
                assert(!skew_free(t0));
                if skew_free(t1) {
                    assert forall|j: int|
                        0 <= j && j + 1 < t0.len() implies (#[trigger] t0[j + 1]).cycle_start
                        >= t0[j].cycle_end by {
                        assert(t1[j + 1].cycle_start >= t1[j].cycle_end);
                    }
                    assert(false);
                }
                assert(!skew_free(t1));
            }
        }
        skew_ok = skew_ok && !step_back;
        prev_cycle_end = s.cycle_end;
        i = i + 1;
    }
    proof {
        assert(samples@.take(n as int) =~= samples@);
        lemma_sums_bound_count(samples@);
    }
    if accepted >= 1 && skew_ok && wall_total <= (u64::MAX as u128) && cycle_total <= (
    u64::MAX as u128) {
        let w: u64 = wall_total as u64;
        let c: u64 = cycle_total as u64;
        let mut j: usize = 0;
        let mut all_ok: bool = true;
        while j < n
            invariant
                n == samples@.len(),
                j <= n,
                w == sum_wall(samples@),
                c == sum_cycle(samples@),
                1 <= w,
                1 <= c,
                all_ok == forall|k: int|
                    0 <= k < j ==> (sample_plausible(#[trigger] samples@[k]) ==> within_tolerance(
                        samples@[k],
                        w as int,
                        c as int,
                    )),
            decreases n - j,
        {
            let s = samples[j];
            if s.wall_end > s.wall_start && s.cycle_end > s.cycle_start {
                let wd: u64 = s.wall_end - s.wall_start;
                let cd: u64 = s.cycle_end - s.cycle_start;
                proof {
                    assert((wd as int) * (c as int) <= (u64::MAX as int) * (u64::MAX as int))
                        by (nonlinear_arith)
                        requires
                            0 <= wd as int <= u64::MAX as int,
                            0 <= c as int <= u64::MAX as int,
                    ;
                    assert((w as int) * (cd as int) <= (u64::MAX as int) * (u64::MAX as int))
                        by (nonlinear_arith)
                        requires
                            0 <= w as int <= u64::MAX as int,
                            0 <= cd as int <= u64::MAX as int,
                    ;
                }
                let lhs: u128 = (wd as u128) * (c as u128);
                let rhs: u128 = (w as u128) * (cd as u128);
                let diff: u128 = if lhs >= rhs {
                    lhs - rhs
                } else {
                    rhs - lhs
                };
                if !(diff <= rhs / (TOLERANCE_DENOMINATOR as u128)) {
                    all_ok = false;
                }
            }
            j = j + 1;
        }
        if all_ok {
            assert(calibration_succeeds(samples@));
            return Calibration { available: true, nanos_num: w, nanos_den: c };
        }
        assert(!calibration_succeeds(samples@));
        return Calibration::fallback();
    }
    assert(!calibration_succeeds(samples@));
    Calibration::fallback()
}

/// Each plausible sample contributes at least one nanosecond and one cycle,
/// so the sums dominate the count and are never negative.
proof fn lemma_sums_bound_count(samples: Seq<Sample>)
    ensures
        0 <= count_plausible(samples) <= samples.len(),
        sum_wall(samples) >= count_plausible(samples),
        sum_cycle(samples) >= count_plausible(samples),
    decreases samples.len(),
{
    if samples.len() > 0 {
        lemma_sums_bound_count(samples.drop_last());
    }
}

} // verus!
