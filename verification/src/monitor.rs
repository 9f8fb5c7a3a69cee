use vstd::prelude::*;

use crate::reading::Reading;
use crate::session::SessionError;

verus! {

/// Fixed delay, in milliseconds, between publishing the sentinel and the
/// next connection attempt.
pub const RETRY_DELAY_MS: u64 = 5000;

/// Why one monitor attempt ended. Every variant is retried the same way:
/// there is no error budget and no circuit breaker.
#[derive(Clone, Copy, Debug, PartialEq, Eq, Structural)]
pub enum MonitorError {
    /// No adapter was present or it never became ready.
    AdapterUnavailable,
    /// Neither the connected-device query nor discovery yielded a match.
    DeviceNotFound,
    /// The connection session failed after a device was located.
    Session(SessionError),
}

/// One thing the supervisor asks its environment to do while recovering
/// from a failed attempt.
#[derive(Debug, PartialEq, Eq)]
pub enum MonitorAction {
    /// Publish this reading to the broadcast hub.
    Publish(Reading),
    /// Suspend for this many milliseconds.
    Sleep(u64),
}

/// The backoff policy between attempts: a fixed delay, whatever the attempt
/// number. The policy is its own value so a different strategy could replace
/// it without touching the state machines.
#[derive(Clone, Copy, Debug, PartialEq, Eq, Structural)]
pub struct FixedBackoff {
    /// The delay returned for every attempt.
    pub delay_ms: u64,
}

impl FixedBackoff {
    /// The policy the supervisor runs with: the fixed retry delay.
    pub fn standard() -> (p: FixedBackoff)
        ensures
            p.delay_ms == RETRY_DELAY_MS,
    {
        FixedBackoff { delay_ms: RETRY_DELAY_MS }
    }

    /// The delay before the given attempt: independent of the attempt number.
    pub fn next_delay(&self, _attempt: u64) -> (d: u64)
        ensures
            d == self.delay_ms,
    {
        self.delay_ms
    }
}

/// The supervisor's response to a failed attempt, in execution order:
/// exactly one sentinel reading (no data, no contact field, disconnected),
/// published before the fixed-delay sleep, so consumers observe the loss of
/// signal promptly. The response is the same for every failure cause.
pub fn recovery_actions(_err: &MonitorError, timestamp: String) -> (acts: Vec<MonitorAction>)
    ensures
        acts@.len() == 2,
        acts@[0] == MonitorAction::Publish(Reading::spec_sentinel(timestamp)),
        acts@[1] == MonitorAction::Sleep(RETRY_DELAY_MS),
{
    let sentinel = Reading::sentinel(timestamp);
    let mut acts: Vec<MonitorAction> = Vec::new();
    acts.push(MonitorAction::Publish(sentinel));
    acts.push(MonitorAction::Sleep(RETRY_DELAY_MS));
    acts
}

} // verus!
