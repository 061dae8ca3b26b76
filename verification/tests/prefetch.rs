use kaijutsu_app::dj::prefetch::{
    next_fetch_step, reset_slot_if_same, FetchAttempt, FetchStep, FETCH_TIMEOUT,
};

#[test]
fn a_resolved_object_is_delivered() {
    assert_eq!(next_fetch_step(FetchAttempt::Resolved, false), FetchStep::Deliver);
    assert_eq!(next_fetch_step(FetchAttempt::Resolved, true), FetchStep::Deliver);
}

#[test]
fn a_dead_transport_is_redialed_once() {
    for dead in [FetchAttempt::TransportError, FetchAttempt::TimedOut] {
        let first = next_fetch_step(dead, false);
        let second = next_fetch_step(dead, true);
        assert_ne!(first, second);
        assert_eq!(second, FetchStep::GiveUpAndReset);
    }
    assert_eq!(next_fetch_step(FetchAttempt::TransportError, false), FetchStep::Redial);
}

#[test]
fn a_missing_object_leaves_the_connection_alone() {
    assert_eq!(next_fetch_step(FetchAttempt::ObjectError, false), FetchStep::GiveUp);
    assert_eq!(next_fetch_step(FetchAttempt::ObjectError, true), FetchStep::GiveUp);
}

#[test]
fn only_the_connection_that_failed_is_dropped() {
    assert_eq!(reset_slot_if_same(Some(3), 3), None);
    assert_eq!(reset_slot_if_same(Some(4), 3), Some(4), "someone redialed meanwhile");
    assert_eq!(reset_slot_if_same(None, 3), None);
}

#[test]
fn a_fetch_waits_ten_seconds() {
    assert_eq!(FETCH_TIMEOUT, 10_000_000_000);
}
