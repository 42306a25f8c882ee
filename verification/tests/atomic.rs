use fastant::Atomic;
use fastant::Instant;

#[test]
fn load_returns_the_initial_value() {
    let cell = Atomic::new(Instant::from_raw(7));
    assert_eq!(cell.load().as_raw(), 7);
}

#[test]
fn load_returns_the_last_stored_value() {
    let mut cell = Atomic::new(Instant::from_raw(7));
    cell.store(Instant::from_raw(9));
    assert_eq!(cell.load().as_raw(), 9);
    cell.store(Instant::from_raw(11));
    assert_eq!(cell.load().as_raw(), 11);
}

#[test]
fn swap_exchanges_old_for_new() {
    let mut cell = Atomic::new(Instant::from_raw(7));
    let before = cell.swap(Instant::from_raw(13));
    assert_eq!(before.as_raw(), 7);
    assert_eq!(cell.load().as_raw(), 13);
}
