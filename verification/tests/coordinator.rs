use cautious_backoff::Coordinator;
use cautious_backoff::Outcome;
use cautious_backoff::Phase;

#[test]
fn requests_are_serviced_in_arrival_order() {
    let mut c = Coordinator::new(100, 800, 50);
    c.enqueue(10);
    c.enqueue(20);
    c.enqueue(30);
    assert_eq!(c.service(), Some(10));
    c.resolve(None);
    assert_eq!(c.service(), Some(20));
    c.resolve(None);
    assert_eq!(c.service(), Some(30));
    c.resolve(None);
    assert_eq!(c.granted_log, vec![10, 20, 30]);
}

#[test]
fn no_grant_while_a_permit_is_outstanding() {
    let mut c = Coordinator::new(100, 800, 50);
    c.enqueue(1);
    c.enqueue(2);
    assert_eq!(c.service(), Some(1));
    assert_eq!(c.phase, Phase::Granted);
    assert_eq!(c.service(), None);
    assert_eq!(c.service(), None);
    c.resolve(Some(Outcome::Success));
    assert_eq!(c.service(), Some(2));
}

#[test]
fn nothing_to_service_on_an_empty_queue() {
    let mut c = Coordinator::new(100, 800, 50);
    assert_eq!(c.service(), None);
    assert_eq!(c.phase, Phase::Idle);
}

#[test]
fn abandoned_permit_adds_no_delay() {
    let mut c = Coordinator::new(100, 800, 50);
    c.enqueue(1);
    c.service();
    assert_eq!(c.resolve(Some(Outcome::Fail)), 200);
    c.enqueue(2);
    c.service();
    assert_eq!(c.resolve(None), 0);
    assert_eq!(c.pacing.current_interval, 200);
}

#[test]
fn end_to_end_fail_then_success_scenario() {
    let mut c = Coordinator::new(100, 1000, 50);
    c.enqueue(1);
    assert_eq!(c.service(), Some(1));
    assert_eq!(c.resolve(Some(Outcome::Fail)), 200);
    c.enqueue(2);
    assert_eq!(c.service(), Some(2));
    assert_eq!(c.resolve(Some(Outcome::Success)), 50);
    c.enqueue(3);
    assert_eq!(c.service(), Some(3));
}

#[test]
fn terminated_coordinator_grants_nothing() {
    let mut c = Coordinator::new(100, 800, 50);
    c.enqueue(1);
    c.service();
    c.resolve(Some(Outcome::Success));
    c.close();
    assert_eq!(c.phase, Phase::Terminated);
    assert_eq!(c.service(), None);
}
