use hr_monitor::locator::locator_step;
use hr_monitor::locator::LocatorEvent;
use hr_monitor::locator::LocatorState;
use hr_monitor::session::session_command;
use hr_monitor::session::session_step;
use hr_monitor::session::terminal_error;
use hr_monitor::session::SessionCommand;
use hr_monitor::session::SessionError;
use hr_monitor::session::SessionEvent;
use hr_monitor::session::SessionState;

fn ts() -> String {
    "2024-01-01 00:00:00".to_string()
}

#[test]
fn happy_path_reaches_streaming_and_publishes() {
    let s = SessionState::Idle;
    assert_eq!(session_command(&s), Some(SessionCommand::CheckConnection));
    let (s, p) = session_step(s, SessionEvent::ConnectionChecked(false));
    assert_eq!(s, SessionState::Connecting);
    assert_eq!(p, None);
    assert_eq!(session_command(&s), Some(SessionCommand::Connect));

    let (s, _) = session_step(s, SessionEvent::ConnectFinished(true));
    assert_eq!(s, SessionState::ServiceDiscovery);
    assert_eq!(session_command(&s), Some(SessionCommand::DiscoverServices));

    let (s, _) = session_step(s, SessionEvent::ServicesResolved(1));
    assert_eq!(s, SessionState::CharacteristicDiscovery);
    assert_eq!(session_command(&s), Some(SessionCommand::DiscoverCharacteristics));

    let (s, _) = session_step(s, SessionEvent::CharacteristicsResolved(2));
    assert_eq!(s, SessionState::Subscribing);
    assert_eq!(session_command(&s), Some(SessionCommand::Subscribe));

    let (s, _) = session_step(s, SessionEvent::SubscribeFinished(true));
    assert_eq!(s, SessionState::Streaming);
    assert_eq!(session_command(&s), Some(SessionCommand::AwaitNotification));
    assert_eq!(terminal_error(&s), None);

    let (s, p) = session_step(s, SessionEvent::Notification(vec![0x06, 72], ts()));
    assert_eq!(s, SessionState::Streaming);
    let reading = p.unwrap();
    assert_eq!(reading.heart_rate, 72);
    assert_eq!(reading.sensor_contact, Some(true));
    assert!(reading.device_connected);

    let (s, p) = session_step(s, SessionEvent::StreamClosed);
    assert_eq!(s, SessionState::Ended);
    assert_eq!(p, None);
    assert_eq!(session_command(&s), None);
    assert_eq!(terminal_error(&s), Some(SessionError::StreamEnded));
}

#[test]
fn already_connected_device_skips_connecting() {
    let (s, _) = session_step(SessionState::Idle, SessionEvent::ConnectionChecked(true));
    assert_eq!(s, SessionState::ServiceDiscovery);
}

#[test]
fn each_step_failure_yields_its_error() {
    let (s, _) = session_step(SessionState::Connecting, SessionEvent::ConnectFinished(false));
    assert_eq!(s, SessionState::Failed(SessionError::ConnectError));
    assert_eq!(terminal_error(&s), Some(SessionError::ConnectError));

    let (s, _) = session_step(SessionState::ServiceDiscovery, SessionEvent::ServicesResolved(0));
    assert_eq!(s, SessionState::Failed(SessionError::ServiceNotFound));

    let (s, _) = session_step(
        SessionState::CharacteristicDiscovery,
        SessionEvent::CharacteristicsResolved(0),
    );
    assert_eq!(s, SessionState::Failed(SessionError::CharacteristicNotFound));

    let (s, _) = session_step(SessionState::Subscribing, SessionEvent::SubscribeFinished(false));
    assert_eq!(s, SessionState::Failed(SessionError::SubscribeError));
}

#[test]
fn malformed_notification_ends_the_session() {
    let (s, p) = session_step(SessionState::Streaming, SessionEvent::Notification(vec![], ts()));
    assert_eq!(s, SessionState::Failed(SessionError::MalformedMeasurement));
    assert_eq!(p, None);
    assert_eq!(session_command(&s), None);

    let (s, p) = session_step(
        SessionState::Streaming,
        SessionEvent::Notification(vec![0x01, 0x50], ts()),
    );
    assert_eq!(s, SessionState::Failed(SessionError::MalformedMeasurement));
    assert_eq!(p, None);
}

#[test]
fn terminal_states_stay_put() {
    let failed = SessionState::Failed(SessionError::ConnectError);
    let (s, p) = session_step(failed, SessionEvent::StreamClosed);
    assert_eq!(s, failed);
    assert_eq!(p, None);

    let (s, _) = session_step(SessionState::Ended, SessionEvent::SubscribeFinished(true));
    assert_eq!(s, SessionState::Ended);
}

#[test]
fn locator_prefers_connected_devices() {
    let s = locator_step(LocatorState::QueryingConnected, LocatorEvent::ConnectedDevices(2));
    assert_eq!(s, LocatorState::Located { from_connected: true });
}

#[test]
fn locator_falls_back_to_discovery() {
    let s = locator_step(LocatorState::QueryingConnected, LocatorEvent::ConnectedDevices(0));
    assert_eq!(s, LocatorState::Discovering);
    let s = locator_step(s, LocatorEvent::Advertisement);
    assert_eq!(s, LocatorState::Located { from_connected: false });
}

#[test]
fn locator_fails_when_discovery_ends() {
    let s = locator_step(LocatorState::Discovering, LocatorEvent::DiscoveryEnded);
    assert_eq!(s, LocatorState::Failed);
}
