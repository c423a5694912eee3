use eule::{ConnectionCommand, ConnectionHandler, ConnectionState, SupervisorAction, SupervisorEvent, TimeSpan};

fn wait_millis(a: SupervisorAction) -> u128 {
    match a {
        SupervisorAction::Wait(d) => d.as_nanos() / 1_000_000,
        other => panic!("expected a wait, got {:?}", other),
    }
}

#[test]
fn backoff_doubles_to_the_ceiling_and_resets_on_success() {
    let mut h = ConnectionHandler::new(TimeSpan::from_millis(500));
    assert_eq!(h.state(), ConnectionState::Disconnected);
    assert!(matches!(h.decide(SupervisorEvent::Started), SupervisorAction::Connect));
    assert_eq!(wait_millis(h.decide(SupervisorEvent::Connected(false))), 100);
    assert_eq!(h.state(), ConnectionState::Reconnecting);
    assert!(matches!(h.decide(SupervisorEvent::WaitOver), SupervisorAction::Connect));
    assert_eq!(wait_millis(h.decide(SupervisorEvent::Connected(false))), 200);
    h.decide(SupervisorEvent::WaitOver);
    assert_eq!(wait_millis(h.decide(SupervisorEvent::Connected(false))), 400);
    h.decide(SupervisorEvent::WaitOver);
    assert_eq!(wait_millis(h.decide(SupervisorEvent::Connected(false))), 500);
    h.decide(SupervisorEvent::WaitOver);
    assert_eq!(wait_millis(h.decide(SupervisorEvent::Connected(false))), 500);
    h.decide(SupervisorEvent::WaitOver);
    assert!(matches!(h.decide(SupervisorEvent::Connected(true)), SupervisorAction::RunSession));
    assert_eq!(h.state(), ConnectionState::Connected);
    assert!(matches!(h.decide(SupervisorEvent::SessionEnded(true)), SupervisorAction::RunSession));
    assert!(matches!(h.decide(SupervisorEvent::SessionEnded(false)), SupervisorAction::Connect));
    assert_eq!(h.state(), ConnectionState::Reconnecting);
    assert_eq!(wait_millis(h.decide(SupervisorEvent::Connected(false))), 100);
}

#[test]
fn commands_take_priority() {
    let mut h = ConnectionHandler::new(TimeSpan::from_secs(60));
    h.decide(SupervisorEvent::Started);
    h.decide(SupervisorEvent::Connected(false));
    h.decide(SupervisorEvent::WaitOver);
    h.decide(SupervisorEvent::Connected(false));
    assert!(matches!(
        h.decide(SupervisorEvent::Command(ConnectionCommand::Reconnect)),
        SupervisorAction::Connect
    ));
    assert_eq!(wait_millis(h.decide(SupervisorEvent::Connected(false))), 100);
    assert!(matches!(
        h.decide(SupervisorEvent::Command(ConnectionCommand::Shutdown)),
        SupervisorAction::Stop
    ));
    assert!(h.is_stopped());
    assert!(matches!(h.decide(SupervisorEvent::WaitOver), SupervisorAction::Stop));
}

#[test]
fn lost_command_channel_stops() {
    let mut h = ConnectionHandler::new(TimeSpan::from_secs(1));
    h.decide(SupervisorEvent::Started);
    h.decide(SupervisorEvent::Connected(true));
    assert!(matches!(h.decide(SupervisorEvent::CommandChannelClosed), SupervisorAction::Stop));
    assert_eq!(h.state(), ConnectionState::Connected);
}

#[test]
fn tiny_ceiling_lowers_the_floor() {
    let mut h = ConnectionHandler::new(TimeSpan::from_millis(10));
    h.decide(SupervisorEvent::Started);
    assert_eq!(wait_millis(h.decide(SupervisorEvent::Connected(false))), 10);
    assert_eq!(h.max_retry_interval().as_nanos(), 10_000_000);
}
