use tempest::applet::is_current_generation;

#[test]
fn current_generation_matches() {
    assert!(is_current_generation(5, 5));
}

#[test]
fn stale_incoming_generation_is_dropped() {
    assert!(!is_current_generation(6, 5));
}

#[test]
fn defensive_mismatch_is_dropped() {
    assert!(!is_current_generation(5, 6));
}
