//! Points in time as raw cycle readings, anchors onto the unix timeline,
//! and a lock-free box for publishing an instant across threads.

use vstd::prelude::*;
use core::sync::atomic::AtomicU64;
use core::sync::atomic::Ordering;
use crate::calibration::Calibration;
use crate::calibration::lemma_cycles_to_nanos_monotonic;
use crate::calibration::lemma_cycles_to_nanos_zero;
use crate::duration::Duration;
use crate::source;

verus! {

/// An opaque, comparable point in time: one reading of the active cycle
/// source. Its view is the raw cycle value, which is meaningless without a
/// conversion factor; two instants are only comparable when they were read
/// in one process under one calibration.
#[derive(Clone, Copy, PartialEq, Eq, Structural, PartialOrd, Ord, Hash, Debug)]
pub struct Instant {
    cycles: u64,
}

impl View for Instant {
    type V = u64;

    closed spec fn view(&self) -> u64 {
        self.cycles
    }
}

impl Instant {
    /// Reads the active cycle source: the current point in time. What the
    /// source returns depends on the moment of the call, so nothing more is
    /// promised of the reading itself; all arithmetic on it is exact.
    pub fn now() -> Instant {
        Instant { cycles: crate::current_cycle() }
    }

    /// The instant standing for one raw reading of a cycle source, for a
    /// caller that reads its own counter.
    pub fn from_raw(cycles: u64) -> (r: Instant)
        ensures
            r@ == cycles,
    {
        Instant { cycles }
    }

    /// The raw cycle reading this instant wraps.
    pub fn as_raw(&self) -> (r: u64)
        ensures
            r == self@,
    {
        self.cycles
    }

    /// Nanoseconds from `earlier` to `self` under calibration `cal`: the
    /// cycle delta converted through the factor, clamped to zero when
    /// `earlier` does not precede `self` — a negative delta is a clock-skew
    /// edge case, never an error or a negative span.
    pub open spec fn spec_duration_since(self, earlier: Instant, cal: Calibration) -> u64 {
        if self@ >= earlier@ {
            cal.spec_cycles_to_nanos((self@ - earlier@) as u64)
        } else {
            0
        }
    }

    /// The span from `earlier` to `self` under an explicit calibration.
    pub fn duration_since_with(&self, earlier: Instant, cal: &Calibration) -> (r: Duration)
        requires
            cal.wf(),
        ensures
            r@ == self.spec_duration_since(earlier, *cal),
    {
        if self.cycles >= earlier.cycles {
            Duration::from_nanos(cal.cycles_to_nanos(self.cycles - earlier.cycles))
        } else {
            Duration::from_nanos(0)
        }
    }

    /// The span from `earlier` to `self` under the process calibration.
    pub fn duration_since(&self, earlier: Instant) -> (r: Duration)
        ensures
            r@ == self.spec_duration_since(earlier, crate::spec_active_calibration()),
    {
        let cal = crate::active_calibration();
        self.duration_since_with(earlier, &cal)
    }

    /// The span from `self` to a fresh reading of the cycle source, under
    /// the process calibration; clamped to zero if the fresh reading is not
    /// later.
    pub fn elapsed(&self) -> Duration {
        Instant::now().duration_since(*self)
    }

    /// This instant projected onto the unix timeline through `anchor`.
    pub fn as_unix_nanos(&self, anchor: &Anchor) -> (r: u64)
        requires
            anchor.wf(),
        ensures
            r == anchor.spec_project(self@),
    {
        anchor.project(*self)
    }
}

/// A fixed correlation point between the cycle counter and absolute time:
/// one cycle reading and one wall-clock reading captured back-to-back, plus
/// the conversion factor. Immutable once constructed; any number of anchors
/// may coexist, each independently valid.
#[derive(Clone, Copy, PartialEq, Eq, Structural, Debug)]
pub struct Anchor {
    /// Cycle-source reading taken at construction.
    pub cycle: u64,
    /// Unix nanoseconds read back-to-back with `cycle`.
    pub unix_time_ns: u64,
    /// The conversion factor the projection applies to cycle deltas.
    pub calibration: Calibration,
}

impl Anchor {
    /// The anchor carries a positive conversion factor.
    pub open spec fn wf(self) -> bool {
        self.calibration.wf()
    }

    /// Captures a fresh correlation: one cycle read and one wall read taken
    /// back-to-back, under the process calibration.
    pub fn new() -> (r: Anchor)
        ensures
            r.wf(),
            r.calibration == crate::spec_active_calibration(),
    {
        let cycle = crate::current_cycle();
        let unix_time_ns = source::current_cycle_fallback();
        Anchor { cycle, unix_time_ns, calibration: crate::active_calibration() }
    }

    /// An anchor assembled from an explicit correlation, for a caller that
    /// reads its own cycle source and wall clock.
    pub fn from_parts(cycle: u64, unix_time_ns: u64, calibration: Calibration) -> (r: Anchor)
        requires
            calibration.wf(),
        ensures
            r == (Anchor { cycle, unix_time_ns, calibration }),
    {
        Anchor { cycle, unix_time_ns, calibration }
    }

    /// A cycle reading projected onto the unix timeline: the anchor's wall
    /// reading shifted by the converted cycle delta. The shift saturates at
    /// both ends, so a reading far before the anchor projects to zero
    /// rather than underflowing.
    pub open spec fn spec_project(self, cycles: u64) -> u64 {
        if cycles >= self.cycle {
            let ns = self.calibration.spec_cycles_to_nanos((cycles - self.cycle) as u64);
            if self.unix_time_ns + ns > u64::MAX {
                u64::MAX
            } else {
                (self.unix_time_ns + ns) as u64
            }
        } else {
            let ns = self.calibration.spec_cycles_to_nanos((self.cycle - cycles) as u64);
            if ns > self.unix_time_ns {
                0
            } else {
                (self.unix_time_ns - ns) as u64
            }
        }
    }

    /// Projects an instant into absolute unix-epoch nanoseconds.
    pub fn project(&self, instant: Instant) -> (r: u64)
        requires
            self.wf(),
        ensures
            r == self.spec_project(instant@),
    {
        if instant.cycles >= self.cycle {
            let ns = self.calibration.cycles_to_nanos(instant.cycles - self.cycle);
            if ns > u64::MAX - self.unix_time_ns {
                u64::MAX
            } else {
                self.unix_time_ns + ns
            }
        } else {
            let ns = self.calibration.cycles_to_nanos(self.cycle - instant.cycles);
            if ns > self.unix_time_ns {
                0
            } else {
                self.unix_time_ns - ns
            }
        }
    }
}

/// The correlation round-trips: projecting the anchor's own cycle reading
/// returns exactly the wall reading the anchor captured, so a projection
/// taken right at the anchor reproduces the wall clock.
pub proof fn lemma_project_at_anchor(a: Anchor)
    requires
        a.wf(),
    ensures
        a.spec_project(a.cycle) == a.unix_time_ns,
{
    assert((a.cycle - a.cycle) as u64 == 0);
    lemma_cycles_to_nanos_zero(a.calibration);
}

/// The projection is monotonic: of two cycle readings, the later one never
/// projects to an earlier unix time.
pub proof fn lemma_project_monotonic(a: Anchor, c1: u64, c2: u64)
    requires
        a.wf(),
        c1 <= c2,
    ensures
        a.spec_project(c1) <= a.spec_project(c2),
{
    if c1 >= a.cycle {
        lemma_cycles_to_nanos_monotonic(
            a.calibration,
            (c1 - a.cycle) as u64,
            (c2 - a.cycle) as u64,
        );
    } else if c2 < a.cycle {
        lemma_cycles_to_nanos_monotonic(
            a.calibration,
            (a.cycle - c2) as u64,
            (a.cycle - c1) as u64,
        );
    }
}

/// Successive instants compare consistently: with a fixed calibration and a
/// fixed starting point, an instant later in cycles never measures a
/// shorter span since the start, so non-decreasing readings give
/// non-decreasing spans.
pub proof fn lemma_duration_since_monotonic(
    cal: Calibration,
    earlier: Instant,
    mid: Instant,
    later: Instant,
)
    requires
        cal.wf(),
        mid@ <= later@,
    ensures
        mid.spec_duration_since(earlier, cal) <= later.spec_duration_since(earlier, cal),
{
    if mid@ >= earlier@ {
        lemma_cycles_to_nanos_monotonic(
            cal,
            (mid@ - earlier@) as u64,
            (later@ - earlier@) as u64,
        );
    }
}

/// Under the fallback calibration every span is exact: the coarse counter
/// already counts nanoseconds, so the measured span is precisely the cycle
/// delta, clamped to zero when the readings are out of order. The clamped
/// arithmetic behaves the same however the strategy was chosen.
pub proof fn lemma_fallback_duration_exact(earlier: Instant, later: Instant)
    ensures
        later.spec_duration_since(earlier, Calibration::spec_fallback()) == if later@
            >= earlier@ {
            (later@ - earlier@) as u64
        } else {
            0
        },
{
    if later@ >= earlier@ {
        crate::calibration::lemma_fallback_conversion_identity((later@ - earlier@) as u64);
    }
}

/// An instant measured against itself spans no time.
pub proof fn lemma_duration_since_self_zero(cal: Calibration, i: Instant)
    requires
        cal.wf(),
    ensures
        i.spec_duration_since(i, cal) == 0,
{
    assert((i@ - i@) as u64 == 0);
    lemma_cycles_to_nanos_zero(cal);
}

/// A lock-free box holding one instant's raw cycle reading in a single
/// machine word, so a reader observes exactly a value some writer put there
/// and never a torn word. Its view is the word it currently holds.
pub struct Atomic {
    cell: AtomicU64,
    value: Ghost<u64>,
}

impl View for Atomic {
    type V = u64;

    closed spec fn view(&self) -> u64 {
        self.value@
    }
}

impl Atomic {
    /// Relies on `core::sync::atomic::AtomicU64::store`: afterwards the
    /// cell holds exactly the given word.
    #[verifier::external_body]
    fn raw_store(&mut self, cycles: u64)
        ensures
            final(self)@ == cycles,
    {
        self.cell.store(cycles, Ordering::Relaxed);
    }

    /// Relies on `core::sync::atomic::AtomicU64::load`: the whole word the
    /// cell holds, never a torn value.
    #[verifier::external_body]
    fn raw_load(&self) -> (r: u64)
        ensures
            r == self@,
    {
        self.cell.load(Ordering::Relaxed)
    }

    /// Relies on `core::sync::atomic::AtomicU64::swap`: stores the given
    /// word and returns the word the cell held before, in one step.
    #[verifier::external_body]
    fn raw_swap(&mut self, cycles: u64) -> (r: u64)
        ensures
            r == old(self)@,
            final(self)@ == cycles,
    {
        self.cell.swap(cycles, Ordering::Relaxed)
    }

    /// The box holding `instant`.
    pub fn new(instant: Instant) -> (r: Atomic)
        ensures
            r@ == instant@,
    {
        Atomic { cell: AtomicU64::new(instant.as_raw()), value: Ghost(instant@) }
    }

    /// Publishes `instant` as the box's value.
    pub fn store(&mut self, instant: Instant)
        ensures
            final(self)@ == instant@,
    {
        self.raw_store(instant.as_raw());
    }

    /// Reads the published instant: exactly the box's current value, never
    /// a torn word.
    pub fn load(&self) -> (r: Instant)
        ensures
            r@ == self@,
    {
        Instant::from_raw(self.raw_load())
    }

    /// Publishes `instant` and hands back the previously published instant
    /// in one step.
    pub fn swap(&mut self, instant: Instant) -> (r: Instant)
        ensures
            r@ == old(self)@,
            final(self)@ == instant@,
    {
        Instant::from_raw(self.raw_swap(instant.as_raw()))
    }
}

} // verus!
