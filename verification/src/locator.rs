use vstd::prelude::*;

verus! {

/// The Heart Rate Service UUID, in the 16-bit Bluetooth SIG short form.
pub const HEART_RATE_SERVICE_UUID16: u16 = 0x180D;

/// The Heart Rate Measurement characteristic UUID, 16-bit short form.
pub const HEART_RATE_MEASUREMENT_UUID16: u16 = 0x2A37;

/// Where the device-selection procedure stands.
#[derive(Clone, Copy, Debug, PartialEq, Eq, Structural)]
pub enum LocatorState {
    /// Asking the adapter for devices already connected and exposing the
    /// Heart Rate Service.
    QueryingConnected,
    /// Active discovery restricted to the service UUID, waiting without a
    /// timeout for the first matching advertisement.
    Discovering,
    /// A device was chosen: the first already-connected match if there was
    /// one, otherwise the first advertisement observed.
    Located { from_connected: bool },
    /// The discovery stream ended with no match: the attempt fails with
    /// `DeviceNotFound`.
    Failed,
}

/// What the adapter reported back for the one query the current state asked.
#[derive(Clone, Copy, Debug, PartialEq, Eq, Structural)]
pub enum LocatorEvent {
    /// How many already-connected matching devices the adapter listed.
    ConnectedDevices(usize),
    /// A matching advertisement arrived; the driver takes that device.
    Advertisement,
    /// The discovery stream ended without a match.
    DiscoveryEnded,
}

/// The transition relation of device selection: an already-connected device
/// is preferred (the first listed, with no further ranking); otherwise the
/// first advertisement wins. An event that does not belong to the current
/// state changes nothing.
pub open spec fn spec_locator_step(state: LocatorState, event: LocatorEvent) -> LocatorState {
    match (state, event) {
        (LocatorState::QueryingConnected, LocatorEvent::ConnectedDevices(n)) => if n > 0 {
            LocatorState::Located { from_connected: true }
        } else {
            LocatorState::Discovering
        },
        (LocatorState::Discovering, LocatorEvent::Advertisement) => LocatorState::Located {
            from_connected: false,
        },
        (LocatorState::Discovering, LocatorEvent::DiscoveryEnded) => LocatorState::Failed,
        (s, _) => s,
    }
}

/// Runs one device-selection transition; the result is exactly the
/// transition relation's.
pub fn locator_step(state: LocatorState, event: LocatorEvent) -> (next: LocatorState)
    ensures
        next == spec_locator_step(state, event),
{
    match (state, event) {
        (LocatorState::QueryingConnected, LocatorEvent::ConnectedDevices(n)) => {
            if n > 0 {
                LocatorState::Located { from_connected: true }
            } else {
                LocatorState::Discovering
            }
        },
        (LocatorState::Discovering, LocatorEvent::Advertisement) => LocatorState::Located {
            from_connected: false,
        },
        (LocatorState::Discovering, LocatorEvent::DiscoveryEnded) => LocatorState::Failed,
        (s, _) => s,
    }
}

} // verus!
