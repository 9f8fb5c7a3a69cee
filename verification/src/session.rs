use vstd::prelude::*;

use crate::decoder::decode_measurement;
use crate::decoder::spec_decode;
use crate::decoder::well_formed;
use crate::reading::Reading;

verus! {

/// Why one connection session ended. Every terminal session outcome is one of
/// these; the supervisor treats them all alike.
#[derive(Clone, Copy, Debug, PartialEq, Eq, Structural)]
pub enum SessionError {
    /// The platform connect call failed.
    ConnectError,
    /// The connected peripheral exposes no Heart Rate Service.
    ServiceNotFound,
    /// The service exposes no Heart Rate Measurement characteristic.
    CharacteristicNotFound,
    /// Notification registration failed.
    SubscribeError,
    /// A received payload could not be decoded; one bad packet ends the
    /// session rather than attempting to resync within the stream.
    MalformedMeasurement,
    /// The notification stream closed cleanly; downstream consumers still
    /// need the disconnect signal, so this counts as a failure.
    StreamEnded,
}

/// Where one device-handling attempt stands.
#[derive(Clone, Copy, Debug, PartialEq, Eq, Structural)]
pub enum SessionState {
    /// No work done yet for this device.
    Idle,
    /// Waiting for the platform connect call.
    Connecting,
    /// Connected; resolving the Heart Rate Service by UUID.
    ServiceDiscovery,
    /// Resolving the Heart Rate Measurement characteristic by UUID.
    CharacteristicDiscovery,
    /// Requesting the notification stream.
    Subscribing,
    /// Consuming notifications and publishing decoded readings.
    Streaming,
    /// The notification stream closed cleanly.
    Ended,
    /// A step failed.
    Failed(SessionError),
}

/// What the driver reports back to the session: the outcome of the one
/// outside operation the current state asked for.
#[derive(Debug, PartialEq, Eq)]
pub enum SessionEvent {
    /// Whether the device already reports an active connection.
    ConnectionChecked(bool),
    /// Whether the platform connect call succeeded.
    ConnectFinished(bool),
    /// How many services matched the Heart Rate Service UUID.
    ServicesResolved(usize),
    /// How many characteristics matched the measurement UUID.
    CharacteristicsResolved(usize),
    /// Whether notification registration succeeded.
    SubscribeFinished(bool),
    /// One notification payload arrived, with the wall-clock time it was seen.
    Notification(Vec<u8>, String),
    /// The notification stream ended without an error.
    StreamClosed,
}

/// The outside operation the driver must run next in a given state.
#[derive(Clone, Copy, Debug, PartialEq, Eq, Structural)]
pub enum SessionCommand {
    /// Ask the platform whether the device is already connected.
    CheckConnection,
    /// Request a connection to the device.
    Connect,
    /// Resolve the Heart Rate Service by UUID.
    DiscoverServices,
    /// Resolve the measurement characteristic by UUID.
    DiscoverCharacteristics,
    /// Register for notifications.
    Subscribe,
    /// Await the next notification.
    AwaitNotification,
}

/// The transition relation of one session: from the current state and the
/// event the driver observed, the next state and the reading to publish, if
/// any. An event that does not belong to the current state changes nothing.
pub open spec fn spec_session_step(state: SessionState, event: SessionEvent) -> (SessionState,
    Option<Reading>) {
    match (state, event) {
        (SessionState::Idle, SessionEvent::ConnectionChecked(already)) => (
            if already {
                SessionState::ServiceDiscovery
            } else {
                SessionState::Connecting
            },
            None,
        ),
        (SessionState::Connecting, SessionEvent::ConnectFinished(ok)) => (
            if ok {
                SessionState::ServiceDiscovery
            } else {
                SessionState::Failed(SessionError::ConnectError)
            },
            None,
        ),
        (SessionState::ServiceDiscovery, SessionEvent::ServicesResolved(n)) => (
            if n > 0 {
                SessionState::CharacteristicDiscovery
            } else {
                SessionState::Failed(SessionError::ServiceNotFound)
            },
            None,
        ),
        (SessionState::CharacteristicDiscovery, SessionEvent::CharacteristicsResolved(n)) => (
            if n > 0 {
                SessionState::Subscribing
            } else {
                SessionState::Failed(SessionError::CharacteristicNotFound)
            },
            None,
        ),
        (SessionState::Subscribing, SessionEvent::SubscribeFinished(ok)) => (
            if ok {
                SessionState::Streaming
            } else {
                SessionState::Failed(SessionError::SubscribeError)
            },
            None,
        ),
        (SessionState::Streaming, SessionEvent::Notification(payload, timestamp)) => (
            if well_formed(payload@) {
                (SessionState::Streaming, Some(spec_decode(payload@, timestamp)))
            } else {
                (SessionState::Failed(SessionError::MalformedMeasurement), None)
            }
        ),
        (SessionState::Streaming, SessionEvent::StreamClosed) => (SessionState::Ended, None),
        (s, _) => (s, None),
    }
}

/// Runs one session transition. The result is exactly the transition
/// relation's; in particular a reading is published only while streaming, a
/// successful decode keeps the session streaming, and a malformed payload
/// fails it.
pub fn session_step(state: SessionState, event: SessionEvent) -> (r: (SessionState, Option<
    Reading,
>))
    ensures
        r == spec_session_step(state, event),
        r.1 is Some ==> state is Streaming && r.0 is Streaming,
{
    match (state, event) {
        (SessionState::Idle, SessionEvent::ConnectionChecked(already)) => {
            if already {
                (SessionState::ServiceDiscovery, None)
            } else {
                (SessionState::Connecting, None)
            }
        },
        (SessionState::Connecting, SessionEvent::ConnectFinished(ok)) => {
            if ok {
                (SessionState::ServiceDiscovery, None)
            } else {
                (SessionState::Failed(SessionError::ConnectError), None)
            }
        },
        (SessionState::ServiceDiscovery, SessionEvent::ServicesResolved(n)) => {
            if n > 0 {
                (SessionState::CharacteristicDiscovery, None)
            } else {
                (SessionState::Failed(SessionError::ServiceNotFound), None)
            }
        },
        (SessionState::CharacteristicDiscovery, SessionEvent::CharacteristicsResolved(n)) => {
            if n > 0 {
                (SessionState::Subscribing, None)
            } else {
                (SessionState::Failed(SessionError::CharacteristicNotFound), None)
            }
        },
        (SessionState::Subscribing, SessionEvent::SubscribeFinished(ok)) => {
            if ok {
                (SessionState::Streaming, None)
            } else {
                (SessionState::Failed(SessionError::SubscribeError), None)
            }
        },
        (SessionState::Streaming, SessionEvent::Notification(payload, timestamp)) => {
            match decode_measurement(&payload, timestamp) {
                Ok(reading) => (SessionState::Streaming, Some(reading)),
                Err(_) => (SessionState::Failed(SessionError::MalformedMeasurement), None),
            }
        },
        (SessionState::Streaming, SessionEvent::StreamClosed) => (SessionState::Ended, None),
        (s, _) => (s, None),
    }
}

/// The outside operation each state waits on; `None` exactly for the two
/// terminal states.
pub open spec fn spec_session_command(state: SessionState) -> Option<SessionCommand> {
    match state {
        SessionState::Idle => Some(SessionCommand::CheckConnection),
        SessionState::Connecting => Some(SessionCommand::Connect),
        SessionState::ServiceDiscovery => Some(SessionCommand::DiscoverServices),
        SessionState::CharacteristicDiscovery => Some(SessionCommand::DiscoverCharacteristics),
        SessionState::Subscribing => Some(SessionCommand::Subscribe),
        SessionState::Streaming => Some(SessionCommand::AwaitNotification),
        SessionState::Ended => None,
        SessionState::Failed(_) => None,
    }
}

/// What the driver must do next, or `None` once the session is over.
pub fn session_command(state: &SessionState) -> (c: Option<SessionCommand>)
    ensures
        c == spec_session_command(*state),
        c is None <==> spec_terminal_error(*state) is Some,
{
    match state {
        SessionState::Idle => Some(SessionCommand::CheckConnection),
        SessionState::Connecting => Some(SessionCommand::Connect),
        SessionState::ServiceDiscovery => Some(SessionCommand::DiscoverServices),
        SessionState::CharacteristicDiscovery => Some(SessionCommand::DiscoverCharacteristics),
        SessionState::Subscribing => Some(SessionCommand::Subscribe),
        SessionState::Streaming => Some(SessionCommand::AwaitNotification),
        SessionState::Ended => None,
        SessionState::Failed(_) => None,
    }
}

/// The typed error a terminal state hands the supervisor: the failure cause,
/// or `StreamEnded` for a stream that closed cleanly. `None` while the
/// session is still running.
pub open spec fn spec_terminal_error(state: SessionState) -> Option<SessionError> {
    match state {
        SessionState::Ended => Some(SessionError::StreamEnded),
        SessionState::Failed(e) => Some(e),
        _ => None,
    }
}

/// Reads the terminal outcome of a session, if it has one.
pub fn terminal_error(state: &SessionState) -> (e: Option<SessionError>)
    ensures
        e == spec_terminal_error(*state),
{
    match state {
        SessionState::Ended => Some(SessionError::StreamEnded),
        SessionState::Failed(err) => Some(*err),
        _ => None,
    }
}

} // verus!
