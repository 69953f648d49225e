use idv_admin_daemon::config::EndpointConfig;
use idv_admin_daemon::outcome::OutcomeKind;
use idv_admin_daemon::request::{HttpMethod, Trigger};
use idv_admin_daemon::scheduler::{Action, Event, Phase, Scheduler, TICK_PERIOD_SECS};

fn scheduler() -> Scheduler {
    let c = EndpointConfig::resolve(Some("dev".to_string()), Some("key".to_string())).unwrap();
    Scheduler::new(c)
}

fn called(a: &Action) -> Option<Trigger> {
    match a {
        Action::Call { trigger, .. } => Some(*trigger),
        _ => None,
    }
}

#[test]
fn fresh_scheduler_waits_for_a_tick() {
    let mut s = scheduler();
    assert_eq!(s.phase(), Phase::AwaitingTick);
    assert!(matches!(s.step(Event::Completed(OutcomeKind::Succeeded)), Action::AwaitTick));
    assert_eq!(s.phase(), Phase::AwaitingTick);
    assert_eq!(TICK_PERIOD_SECS, 600);
}

#[test]
fn n_ticks_give_n_ordered_pairs() {
    let mut s = scheduler();
    let mut calls = Vec::new();
    let n = 5;
    for _ in 0..n {
        let mut a = s.step(Event::Tick);
        while let Some(t) = called(&a) {
            calls.push(t);
            a = s.step(Event::Completed(OutcomeKind::Succeeded));
        }
        assert!(matches!(a, Action::AwaitTick));
    }
    assert_eq!(calls.len(), 2 * n);
    for pair in calls.chunks(2) {
        assert_eq!(pair, [Trigger::Deletion, Trigger::Transfer]);
    }
}

#[test]
fn transfer_follows_failed_deletion() {
    for k in [OutcomeKind::Rejected, OutcomeKind::Unparsable, OutcomeKind::Unreachable] {
        let mut s = scheduler();
        let a = s.step(Event::Tick);
        assert_eq!(called(&a), Some(Trigger::Deletion));
        let b = s.step(Event::Completed(k));
        match b {
            Action::Call { trigger, request } => {
                assert_eq!(trigger, Trigger::Transfer);
                assert_eq!(request.method(), HttpMethod::Post);
                assert_eq!(request.url(), "http://localhost:3000/admin/transfer-funds");
                assert_eq!(request.api_key(), "key");
            }
            _ => panic!("expected the transfer call"),
        }
        assert_eq!(s.phase(), Phase::Transferring);
    }
}

#[test]
fn deletion_call_carries_its_request() {
    let mut s = scheduler();
    match s.step(Event::Tick) {
        Action::Call { trigger, request } => {
            assert_eq!(trigger, Trigger::Deletion);
            assert_eq!(request.method(), HttpMethod::Delete);
            assert_eq!(request.url(), "http://localhost:3000/admin/user-idv-data");
        }
        _ => panic!("expected the deletion call"),
    }
    assert_eq!(s.config().api_key(), "key");
}

#[test]
fn tick_during_a_call_is_ignored() {
    let mut s = scheduler();
    s.step(Event::Tick);
    assert!(matches!(s.step(Event::Tick), Action::AwaitCompletion));
    assert_eq!(s.phase(), Phase::Deleting);
    s.step(Event::Completed(OutcomeKind::Succeeded));
    assert!(matches!(s.step(Event::Tick), Action::AwaitCompletion));
    assert_eq!(s.phase(), Phase::Transferring);
    assert!(matches!(s.step(Event::Completed(OutcomeKind::Succeeded)), Action::AwaitTick));
    assert_eq!(s.phase(), Phase::AwaitingTick);
}
