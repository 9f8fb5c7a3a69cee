use hr_monitor::hub::BroadcastHub;
use hr_monitor::monitor::recovery_actions;
use hr_monitor::monitor::FixedBackoff;
use hr_monitor::monitor::MonitorAction;
use hr_monitor::monitor::MonitorError;
use hr_monitor::monitor::RETRY_DELAY_MS;
use hr_monitor::publish::decode_and_publish;
use hr_monitor::reading::Reading;
use hr_monitor::session::session_step;
use hr_monitor::session::terminal_error;
use hr_monitor::session::SessionError;
use hr_monitor::session::SessionEvent;
use hr_monitor::session::SessionState;

fn ts() -> String {
    "2024-01-01 00:00:00".to_string()
}

fn sentinel() -> Reading {
    Reading {
        timestamp: ts(),
        heart_rate: 0,
        sensor_contact: None,
        device_connected: false,
    }
}

#[test]
fn recovery_publishes_one_sentinel_then_sleeps() {
    for err in [
        MonitorError::AdapterUnavailable,
        MonitorError::DeviceNotFound,
        MonitorError::Session(SessionError::ConnectError),
        MonitorError::Session(SessionError::ServiceNotFound),
        MonitorError::Session(SessionError::CharacteristicNotFound),
        MonitorError::Session(SessionError::SubscribeError),
        MonitorError::Session(SessionError::MalformedMeasurement),
        MonitorError::Session(SessionError::StreamEnded),
    ] {
        let acts = recovery_actions(&err, ts());
        assert_eq!(
            acts,
            vec![
                MonitorAction::Publish(sentinel()),
                MonitorAction::Sleep(RETRY_DELAY_MS),
            ]
        );
    }
}

#[test]
fn backoff_delay_is_fixed() {
    let policy = FixedBackoff::standard();
    assert_eq!(policy.delay_ms, 5000);
    for attempt in [0, 1, 2, 1000] {
        assert_eq!(policy.next_delay(attempt), 5000);
    }
}

#[test]
fn failed_connect_publishes_sentinel_then_readings_resume() {
    let mut hub = BroadcastHub::new(100);
    let consumer = hub.subscribe();

    // First attempt: the platform connect call fails.
    let s = SessionState::Idle;
    let (s, _) = session_step(s, SessionEvent::ConnectionChecked(false));
    let (s, _) = session_step(s, SessionEvent::ConnectFinished(false));
    let err = MonitorError::Session(terminal_error(&s).unwrap());
    assert_eq!(err, MonitorError::Session(SessionError::ConnectError));

    // The supervisor publishes the sentinel before any backoff.
    let mut slept_ms: Option<u64> = None;
    for act in recovery_actions(&err, ts()) {
        match act {
            MonitorAction::Publish(r) => {
                assert_eq!(slept_ms, None);
                hub.send(&r);
            }
            MonitorAction::Sleep(ms) => slept_ms = Some(ms),
        }
    }
    assert_eq!(slept_ms, Some(5000));
    let observed = hub.recv(consumer).unwrap();
    assert_eq!(observed.heart_rate, 0);
    assert_eq!(observed.sensor_contact, None);
    assert!(!observed.device_connected);

    // Second attempt succeeds and genuine readings resume.
    let s = SessionState::Idle;
    let (s, _) = session_step(s, SessionEvent::ConnectionChecked(false));
    let (s, _) = session_step(s, SessionEvent::ConnectFinished(true));
    let (s, _) = session_step(s, SessionEvent::ServicesResolved(1));
    let (s, _) = session_step(s, SessionEvent::CharacteristicsResolved(1));
    let (s, _) = session_step(s, SessionEvent::SubscribeFinished(true));
    assert_eq!(s, SessionState::Streaming);
    let (_, published) = session_step(s, SessionEvent::Notification(vec![0x06, 72], ts()));
    let reading = published.unwrap();
    hub.send(&reading);

    let observed = hub.recv(consumer).unwrap();
    assert_eq!(observed.heart_rate, 72);
    assert_eq!(observed.sensor_contact, Some(true));
    assert!(observed.device_connected);
    assert_eq!(hub.recv(consumer), None);
}

#[test]
fn publish_delivers_to_broadcast_receivers() {
    let (tx, mut rx) = tokio::sync::broadcast::channel::<Reading>(100);
    let (reading, receivers) = decode_and_publish(&tx, &vec![0x00, 60]).unwrap();
    assert_eq!(receivers, 1);
    assert_eq!(reading.heart_rate, 60);
    let observed = rx.try_recv().unwrap();
    assert_eq!(observed, reading);
}

#[test]
fn publish_without_receivers_reports_zero() {
    let (tx, rx) = tokio::sync::broadcast::channel::<Reading>(100);
    drop(rx);
    let (reading, receivers) = decode_and_publish(&tx, &vec![0x00, 61]).unwrap();
    assert_eq!(receivers, 0);
    assert_eq!(reading.heart_rate, 61);
}

#[test]
fn publish_sends_nothing_for_malformed_payloads() {
    let (tx, mut rx) = tokio::sync::broadcast::channel::<Reading>(100);
    let r = decode_and_publish(&tx, &vec![]);
    assert!(r.is_err());
    assert!(rx.try_recv().is_err());
}
