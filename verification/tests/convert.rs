use fastant::Anchor;
use fastant::Calibration;
use fastant::Duration;
use fastant::Instant;

#[test]
fn cycles_convert_by_the_rational_factor() {
    let cal = Calibration { available: true, nanos_num: 3, nanos_den: 2 };
    assert_eq!(cal.cycles_to_nanos(10), 15);
    assert_eq!(cal.cycles_to_nanos(0), 0);
    assert_eq!(cal.cycles_to_nanos(1), 1);
}

#[test]
fn conversion_saturates_at_the_largest_span() {
    let cal = Calibration { available: true, nanos_num: u64::MAX, nanos_den: 1 };
    assert_eq!(cal.cycles_to_nanos(2), u64::MAX);
}

#[test]
fn fallback_conversion_is_the_identity() {
    let cal = Calibration::fallback();
    assert_eq!(cal.cycles_to_nanos(0), 0);
    assert_eq!(cal.cycles_to_nanos(123_456_789), 123_456_789);
    assert_eq!(cal.cycles_to_nanos(u64::MAX), u64::MAX);
}

#[test]
fn duration_since_is_the_clamped_cycle_delta() {
    let a = Instant::from_raw(40);
    let b = Instant::from_raw(100);
    assert_eq!(b.duration_since(a).as_nanos(), 60);
    assert_eq!(a.duration_since(b).as_nanos(), 0);
    assert_eq!(a.duration_since(a).as_nanos(), 0);
}

#[test]
fn duration_since_with_applies_the_factor() {
    let cal = Calibration { available: true, nanos_num: 3, nanos_den: 2 };
    let a = Instant::from_raw(40);
    let b = Instant::from_raw(100);
    assert_eq!(b.duration_since_with(a, &cal).as_nanos(), 90);
    assert_eq!(a.duration_since_with(b, &cal).as_nanos(), 0);
}

#[test]
fn projection_shifts_the_anchor_wall_reading() {
    let anchor = Anchor::from_parts(100, 5000, Calibration::fallback());
    assert_eq!(Instant::from_raw(150).as_unix_nanos(&anchor), 5050);
    assert_eq!(Instant::from_raw(100).as_unix_nanos(&anchor), 5000);
    assert_eq!(Instant::from_raw(40).as_unix_nanos(&anchor), 4940);
}

#[test]
fn projection_saturates_at_zero_before_the_epoch() {
    let anchor = Anchor::from_parts(1000, 50, Calibration::fallback());
    assert_eq!(Instant::from_raw(0).as_unix_nanos(&anchor), 0);
}

#[test]
fn projection_saturates_at_the_largest_reading() {
    let anchor = Anchor::from_parts(0, u64::MAX - 10, Calibration::fallback());
    assert_eq!(Instant::from_raw(100).as_unix_nanos(&anchor), u64::MAX);
}

#[test]
fn duration_units_convert_exactly() {
    assert_eq!(Duration::from_nanos(1_500_000).as_millis(), 1);
    assert_eq!(Duration::from_millis(2).as_nanos(), 2_000_000);
    assert_eq!(Duration::from_millis(u64::MAX).as_nanos(), u64::MAX);
    assert_eq!(Duration::from_nanos(7).as_nanos(), 7);
}
