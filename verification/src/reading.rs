use vstd::prelude::*;

verus! {

/// One published measurement: either a genuine reading decoded from an active
/// notification stream (`device_connected == true`) or the synthetic sentinel
/// emitted when a monitor attempt fails (`device_connected == false`).
#[derive(Debug, PartialEq, Eq)]
pub struct Reading {
    /// Wall-clock instant of publication, human-readable.
    pub timestamp: String,
    /// Beats per minute. `0` is the value the sentinel carries for "no data";
    /// a genuine reading is told apart by `device_connected`, not by the BPM.
    pub heart_rate: u16,
    /// `Some(contact)` when the packet reported contact-detection support,
    /// `None` when it did not.
    pub sensor_contact: Option<bool>,
    /// `true` for every reading decoded from a live stream; `false` only for
    /// the sentinel published on failure.
    pub device_connected: bool,
}

impl Clone for Reading {
    fn clone(&self) -> (r: Self)
        ensures
            r == *self,
    {
        Reading {
            timestamp: self.timestamp.clone(),
            heart_rate: self.heart_rate,
            sensor_contact: self.sensor_contact,
            device_connected: self.device_connected,
        }
    }
}

impl Reading {
    /// The synthetic "signal lost" value published on any failed attempt.
    pub open spec fn spec_sentinel(timestamp: String) -> Reading {
        Reading { timestamp, heart_rate: 0u16, sensor_contact: None, device_connected: false }
    }

    /// Whether this value is the sentinel shape: no data, no contact field,
    /// device disconnected.
    pub open spec fn is_sentinel(self) -> bool {
        &&& self.heart_rate == 0
        &&& self.sensor_contact is None
        &&& !self.device_connected
    }

    /// Whether this value was emitted while a notification stream was active.
    pub open spec fn is_genuine(self) -> bool {
        self.device_connected
    }

    /// Builds the sentinel published when a session or discovery attempt fails.
    pub fn sentinel(timestamp: String) -> (r: Reading)
        ensures
            r == Reading::spec_sentinel(timestamp),
            r.is_sentinel(),
            !r.is_genuine(),
    {
        Reading { timestamp, heart_rate: 0, sensor_contact: None, device_connected: false }
    }
}

} // verus!
