use obsidian::pump::{backoff_ms, step, PumpAction, PumpEvent, PumpState};

#[test]
fn backoff_doubles_up_to_the_limit() {
    assert_eq!(backoff_ms(0), 100);
    assert_eq!(backoff_ms(1), 200);
    assert_eq!(backoff_ms(8), 25_600);
    assert_eq!(backoff_ms(9), 30_000);
    assert_eq!(backoff_ms(u32::MAX), 30_000);
}

#[test]
fn pump_cycle() {
    let s = PumpState::Connecting { failures: 0 };
    let (s, a) = step(s, PumpEvent::ConnectFailed);
    assert_eq!(s, PumpState::Connecting { failures: 1 });
    assert_eq!(a, PumpAction::Connect { delay_ms: 200 });
    let (s, a) = step(s, PumpEvent::Connected);
    assert_eq!((s, a), (PumpState::Reconciling, PumpAction::Query));
    let (s, a) = step(s, PumpEvent::SnapshotHanded);
    assert_eq!((s, a), (PumpState::Listening, PumpAction::Listen));
    let (s, a) = step(s, PumpEvent::WmEvent);
    assert_eq!((s, a), (PumpState::Reconciling, PumpAction::Query));
    let (s, a) = step(s, PumpEvent::SnapshotHanded);
    let (s, a2) = step(s, PumpEvent::ListenFailed);
    assert_eq!(a, PumpAction::Listen);
    assert_eq!((s, a2), (PumpState::Connecting { failures: 0 }, PumpAction::Connect { delay_ms: 100 }));
}

#[test]
fn pump_ignores_events_that_do_not_fit() {
    assert_eq!(step(PumpState::Listening, PumpEvent::Connected), (PumpState::Listening, PumpAction::Listen));
    assert_eq!(
        step(PumpState::Reconciling, PumpEvent::QueryFailed),
        (PumpState::Connecting { failures: 0 }, PumpAction::Connect { delay_ms: 100 })
    );
    assert_eq!(
        step(PumpState::Connecting { failures: u32::MAX }, PumpEvent::ConnectFailed),
        (PumpState::Connecting { failures: u32::MAX }, PumpAction::Connect { delay_ms: 30_000 })
    );
}
