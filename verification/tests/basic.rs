use fastant::current_cycle;
use fastant::is_tsc_available;
use fastant::Anchor;
use fastant::Instant;

#[test]
fn test_is_tsc_available() {
    let _ = is_tsc_available();
}

#[test]
fn test_monotonic() {
    let mut prev: u64 = 0;
    for _ in 0..10000 {
        let cur = current_cycle();
        assert!(cur >= prev);
        prev = cur;
    }
}

#[test]
fn test_unix_time() {
    let now = Instant::now();
    let anchor = Anchor::new();
    let unix_nanos = now.as_unix_nanos(&anchor);
    assert!(unix_nanos > 0);
}

#[test]
fn availability_is_stable() {
    let first = is_tsc_available();
    for _ in 0..100 {
        assert_eq!(is_tsc_available(), first);
    }
}

#[test]
fn active_calibration_is_identity_ratio() {
    let cal = fastant::active_calibration();
    assert_eq!(cal.nanos_num, 1);
    assert_eq!(cal.nanos_den, 1);
    assert!(!cal.available);
}

#[test]
fn coarse_source_is_monotonic() {
    let mut prev: u64 = 0;
    for _ in 0..1000 {
        let cur = fastant::current_cycle_coarse();
        assert!(cur >= prev);
        prev = cur;
    }
}

#[test]
fn source_calibration_is_well_formed() {
    let cal = fastant::calibrate_cycle_source();
    assert!(cal.nanos_num >= 1);
    assert!(cal.nanos_den >= 1);
}
