use fastant::Anchor;
use fastant::Instant;
use web_time::SystemTime;
use web_time::UNIX_EPOCH;

fn wall_now_nanos() -> u64 {
    SystemTime::now()
        .duration_since(UNIX_EPOCH)
        .map(|d| d.as_nanos() as u64)
        .unwrap_or(0)
}

fn busy_wait_millis(ms: u64) {
    let start = wall_now_nanos();
    loop {
        let now = wall_now_nanos();
        if now < start || now - start >= ms * 1_000_000 {
            break;
        }
    }
}

#[test]
fn scenario_duration_after_wait() {
    let a = Instant::now();
    busy_wait_millis(200);
    let b = Instant::now();
    let millis = b.duration_since(a).as_millis();
    assert!(millis >= 195, "measured {} ms", millis);
    assert!(millis <= 210, "measured {} ms", millis);
}

#[test]
fn elapsed_agrees_with_reference_clock() {
    let instant = Instant::now();
    let reference = wall_now_nanos();
    busy_wait_millis(120);
    let elapsed = instant.elapsed().as_nanos() as i128;
    let reference_elapsed = (wall_now_nanos() - reference) as i128;
    let delta = if elapsed >= reference_elapsed {
        elapsed - reference_elapsed
    } else {
        reference_elapsed - elapsed
    };
    assert!(delta < 5_000_000, "clocks disagree by {} ns", delta);
}

#[test]
fn fresh_anchor_projection_tracks_wall_clock() {
    let anchor = Anchor::new();
    let projected = Instant::now().as_unix_nanos(&anchor);
    let wall = wall_now_nanos();
    let delta = if projected >= wall { projected - wall } else { wall - projected };
    assert!(delta < 10_000_000, "projection off by {} ns", delta);
    assert!(projected > 0);
}

#[test]
fn successive_instants_never_regress() {
    let base = Instant::now();
    let mut prev: u64 = 0;
    for _ in 0..1000 {
        let d = Instant::now().duration_since(base).as_nanos();
        assert!(d >= prev);
        prev = d;
    }
}
