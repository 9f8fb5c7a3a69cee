use vstd::prelude::*;

use crate::decoder::decode_measurement_now;
use crate::decoder::spec_heart_rate;
use crate::decoder::spec_sensor_contact;
use crate::decoder::well_formed;
use crate::decoder::DecodeError;
use crate::reading::Reading;

verus! {

#[verifier::external_type_specification]
#[verifier::external_body]
#[verifier::reject_recursive_types(T)]
pub struct ExSender<T>(tokio::sync::broadcast::Sender<T>);

/// Relies on tokio::sync::broadcast::Sender::send: the value is queued for
/// every receiver subscribed at the call, and the call fails exactly when no
/// receiver exists. How many receivers exist depends on the environment, so
/// nothing is stated of the returned count (`None` when there was none).
#[verifier::external_body]
fn send_reading(
    sender: &tokio::sync::broadcast::Sender<Reading>,
    reading: &Reading,
) -> (receivers: Option<usize>) {
    match sender.send(reading.clone()) {
        Ok(n) => Some(n),
        Err(_) => None,
    }
}

/// Decodes one notification payload, stamps it with the current wall-clock
/// time, and publishes the reading to the process-wide broadcast channel.
/// Succeeds exactly on well-formed payloads, returning the published reading
/// and how many receivers were subscribed (zero receivers make the send a
/// no-op, observable to the caller); publishes nothing on a malformed
/// payload.
pub fn decode_and_publish(
    sender: &tokio::sync::broadcast::Sender<Reading>,
    payload: &Vec<u8>,
) -> (r: Result<(Reading, usize), DecodeError>)
    ensures
        r is Ok <==> well_formed(payload@),
        r matches Ok((reading, _)) ==> {
            &&& reading.heart_rate == spec_heart_rate(payload@)
            &&& reading.sensor_contact == spec_sensor_contact(payload@[0])
            &&& reading.device_connected
        },
        r matches Err(e) ==> e == DecodeError::MalformedMeasurement,
{
    match decode_measurement_now(payload) {
        Ok(reading) => {
            let receivers = match send_reading(sender, &reading) {
                Some(n) => n,
                None => 0,
            };
            Ok((reading, receivers))
        },
        Err(e) => Err(e),
    }
}

} // verus!
