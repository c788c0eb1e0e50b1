use cautious_backoff::Outcome;
use cautious_backoff::Pacing;

#[test]
fn backoff_growth_doubles_and_clamps() {
    let mut p = Pacing::new(100, 800, 50);
    assert_eq!(p.on_fail(), 200);
    assert_eq!(p.on_fail(), 400);
    assert_eq!(p.on_fail(), 800);
    assert_eq!(p.on_fail(), 800);
    assert_eq!(p.on_fail(), 800);
}

#[test]
fn success_resets_backoff_to_baseline() {
    let mut p = Pacing::new(100, 800, 50);
    assert_eq!(p.on_fail(), 200);
    assert_eq!(p.on_fail(), 400);
    assert_eq!(p.on_success(), 50);
    assert_eq!(p.current_interval, 100);
    assert_eq!(p.on_fail(), 200);
}

#[test]
fn steady_pacing_is_independent_of_history() {
    let mut p = Pacing::new(100, 800, 50);
    assert_eq!(p.on_success(), 50);
    assert_eq!(p.on_success(), 50);
    p.on_fail();
    p.on_fail();
    p.on_fail();
    assert_eq!(p.on_success(), 50);
    assert_eq!(p.on_success(), 50);
}

#[test]
fn abandonment_changes_nothing() {
    let mut p = Pacing::new(100, 800, 50);
    p.on_fail();
    let before = p;
    assert_eq!(p.on_outcome(None), 0);
    assert_eq!(p, before);
    assert_eq!(p.current_interval, 200);
}

#[test]
fn outcome_dispatch_matches_direct_calls() {
    let mut p = Pacing::new(100, 800, 50);
    assert_eq!(p.on_outcome(Some(Outcome::Fail)), 200);
    assert_eq!(p.current_interval, 200);
    assert_eq!(p.on_outcome(Some(Outcome::Success)), 50);
    assert_eq!(p.current_interval, 100);
}

#[test]
fn inverted_configuration_clamps_on_first_failure() {
    let mut p = Pacing::new(1000, 300, 50);
    assert_eq!(p.current_interval, 1000);
    assert_eq!(p.on_fail(), 300);
    assert_eq!(p.on_fail(), 300);
}

#[test]
fn zero_initial_interval_stays_zero() {
    let mut p = Pacing::new(0, 800, 50);
    assert_eq!(p.on_fail(), 0);
    assert_eq!(p.on_fail(), 0);
}

#[test]
fn doubling_saturates_without_overflow() {
    let mut p = Pacing::new(u64::MAX, u64::MAX, 0);
    assert_eq!(p.on_fail(), u64::MAX);
    assert_eq!(p.on_fail(), u64::MAX);
    assert_eq!(p.on_success(), 0);
}
