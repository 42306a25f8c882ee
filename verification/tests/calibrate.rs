use fastant::calibration::calibrate;
use fastant::calibration::Sample;

fn sample(cycle_start: u64, cycle_end: u64, wall_start: u64, wall_end: u64) -> Sample {
    Sample { cycle_start, wall_start, cycle_end, wall_end }
}

#[test]
fn consistent_samples_calibrate_to_aggregate_ratio() {
    let samples = vec![
        sample(0, 100, 1000, 1300),
        sample(100, 200, 2000, 2300),
        sample(200, 300, 3000, 3300),
    ];
    let cal = calibrate(&samples);
    assert!(cal.available);
    assert_eq!(cal.nanos_num, 900);
    assert_eq!(cal.nanos_den, 300);
}

#[test]
fn deviation_within_tolerance_still_succeeds() {
    let samples = vec![sample(0, 100, 0, 100), sample(100, 200, 200, 305)];
    let cal = calibrate(&samples);
    assert!(cal.available);
    assert_eq!(cal.nanos_num, 205);
    assert_eq!(cal.nanos_den, 200);
}

#[test]
fn deviation_beyond_tolerance_falls_back() {
    let samples = vec![sample(0, 100, 0, 100), sample(100, 200, 200, 330)];
    let cal = calibrate(&samples);
    assert!(!cal.available);
    assert_eq!(cal.nanos_num, 1);
    assert_eq!(cal.nanos_den, 1);
}

#[test]
fn backward_wall_sample_is_discarded_not_fatal() {
    let samples = vec![
        sample(0, 100, 1000, 1300),
        sample(100, 200, 2300, 2000),
        sample(200, 300, 3000, 3300),
    ];
    let cal = calibrate(&samples);
    assert!(cal.available);
    assert_eq!(cal.nanos_num, 600);
    assert_eq!(cal.nanos_den, 200);
}

#[test]
fn zero_cycle_delta_sample_is_discarded_not_fatal() {
    let samples = vec![sample(0, 100, 1000, 1300), sample(100, 100, 2000, 2300)];
    let cal = calibrate(&samples);
    assert!(cal.available);
    assert_eq!(cal.nanos_num, 300);
    assert_eq!(cal.nanos_den, 100);
}

#[test]
fn cycle_step_backwards_between_samples_falls_back() {
    let samples = vec![sample(0, 100, 1000, 1300), sample(50, 150, 2000, 2300)];
    let cal = calibrate(&samples);
    assert!(!cal.available);
    assert_eq!(cal.nanos_num, 1);
    assert_eq!(cal.nanos_den, 1);
}

#[test]
fn no_samples_falls_back() {
    let samples: Vec<Sample> = Vec::new();
    let cal = calibrate(&samples);
    assert!(!cal.available);
    assert_eq!(cal.nanos_num, 1);
    assert_eq!(cal.nanos_den, 1);
}

#[test]
fn only_implausible_samples_falls_back() {
    let samples = vec![sample(0, 0, 1000, 1000), sample(0, 0, 2300, 2000)];
    let cal = calibrate(&samples);
    assert!(!cal.available);
    assert_eq!(cal.nanos_num, 1);
    assert_eq!(cal.nanos_den, 1);
}
