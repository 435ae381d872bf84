use ariel_core::wifi::{Action, Phase, RETRY_DELAY_MS};

#[test]
fn starts_by_looking_at_the_link() {
    assert_eq!(Phase::first(), Phase::Observe);
    assert_eq!(Phase::first().action(), Action::QueryLink);
}

#[test]
fn a_fresh_controller_is_started_then_connected() {
    let mut phase = Phase::first();
    phase = phase.next(false);
    assert_eq!(phase.action(), Action::QueryStarted);
    phase = phase.next(false);
    assert_eq!(phase.action(), Action::ConfigureAndStart);
    phase = phase.next(true);
    assert_eq!(phase.action(), Action::Connect);
    phase = phase.next(true);
    assert_eq!(phase, Phase::Observe);
}

#[test]
fn a_started_controller_is_not_started_again() {
    assert_eq!(Phase::Probe.next(true), Phase::Connect);
    assert_eq!(Phase::Probe.next(false), Phase::Start);
    assert_eq!(Phase::Start.next(false), Phase::Connect);
}

#[test]
fn a_dropped_link_is_retried_after_the_delay() {
    let mut phase = Phase::Observe.next(true);
    assert_eq!(phase.action(), Action::AwaitDisconnect);
    phase = phase.next(true);
    assert_eq!(phase.action(), Action::Sleep(5000));
    phase = phase.next(false);
    assert_eq!(phase, Phase::Probe);
}

#[test]
fn a_failed_attempt_is_retried_after_the_delay() {
    let phase = Phase::Connect.next(false);
    assert_eq!(phase, Phase::Failed);
    assert_eq!(phase.action(), Action::Sleep(RETRY_DELAY_MS));
    assert_eq!(phase.next(true), Phase::Observe);
    assert_eq!(phase.next(false), Phase::Observe);
    assert_eq!(RETRY_DELAY_MS, 5000);
}
