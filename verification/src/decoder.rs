use vstd::prelude::*;

use crate::reading::Reading;
use crate::time::now_timestamp;

verus! {

/// Decoding failure: the notification payload does not carry the bytes that
/// its own flags byte requires (or has no flags byte at all).
#[derive(Clone, Copy, Debug, PartialEq, Eq, Structural)]
pub enum DecodeError {
    MalformedMeasurement,
}

/// Flag bit 0: the BPM field is a little-endian 16-bit value at offsets 1-2
/// instead of a single byte at offset 1.
pub open spec fn flag_rate_is_16bit(flags: u8) -> bool {
    flags % 2 == 1
}

/// Flag bit 2: this packet reports whether skin contact was detected.
pub open spec fn flag_contact_supported(flags: u8) -> bool {
    (flags / 4) % 2 == 1
}

/// Flag bit 1: skin contact detected. Meaningful only when bit 2 is set.
pub open spec fn flag_contact_detected(flags: u8) -> bool {
    (flags / 2) % 2 == 1
}

/// How many bytes a payload whose flags byte is `flags` must have.
pub open spec fn required_len(flags: u8) -> int {
    if flag_rate_is_16bit(flags) {
        3
    } else {
        2
    }
}

/// A payload is well formed when it has a flags byte and the BPM byte(s) that
/// the flags call for. Higher flag bits govern trailing fields (energy
/// expenditure, RR intervals) that this system ignores, so no demand is made
/// on bytes past the BPM field.
pub open spec fn well_formed(data: Seq<u8>) -> bool {
    &&& data.len() >= 1
    &&& data.len() >= required_len(data[0])
}

/// The BPM value carried by a well-formed payload: the byte at offset 1, or
/// the little-endian combination of the bytes at offsets 1 and 2.
pub open spec fn spec_heart_rate(data: Seq<u8>) -> u16
    recommends
        well_formed(data),
{
    if flag_rate_is_16bit(data[0]) {
        (data[1] + data[2] * 256) as u16
    } else {
        data[1] as u16
    }
}

/// The contact field selected by the flags byte: present exactly when bit 2
/// is set, and then carrying bit 1.
pub open spec fn spec_sensor_contact(flags: u8) -> Option<bool> {
    if flag_contact_supported(flags) {
        Some(flag_contact_detected(flags))
    } else {
        None
    }
}

/// What a successful decode of `data`, stamped `timestamp`, returns.
pub open spec fn spec_decode(data: Seq<u8>, timestamp: String) -> Reading
    recommends
        well_formed(data),
{
    Reading {
        timestamp,
        heart_rate: spec_heart_rate(data),
        sensor_contact: spec_sensor_contact(data[0]),
        device_connected: true,
    }
}

/// Decodes one Heart Rate Measurement notification payload, stamping the
/// reading with the given timestamp. Succeeds exactly on well-formed
/// payloads; every failure is `MalformedMeasurement`.
pub fn decode_measurement(data: &Vec<u8>, timestamp: String) -> (r: Result<Reading, DecodeError>)
    ensures
        r is Ok <==> well_formed(data@),
        r is Err <==> (data@.len() == 0 || data@.len() < required_len(data@[0])),
        r matches Ok(reading) ==> reading == spec_decode(data@, timestamp),
        r matches Ok(reading) ==> reading.is_genuine() && !reading.is_sentinel(),
        r matches Err(e) ==> e == DecodeError::MalformedMeasurement,
{
    if data.len() == 0 {
        return Err(DecodeError::MalformedMeasurement);
    }
    let flags = data[0];
    proof {
        assert((flags & 0x01 != 0) <==> (flags % 2 == 1)) by (bit_vector);
        assert((flags & 0x04 != 0) <==> ((flags / 4) % 2 == 1)) by (bit_vector);
        assert((flags & 0x02 != 0) <==> ((flags / 2) % 2 == 1)) by (bit_vector);
    }
    let rate_is_16bit = flags & 0x01 != 0;
    let needed: usize = if rate_is_16bit {
        3
    } else {
        2
    };
    if data.len() < needed {
        return Err(DecodeError::MalformedMeasurement);
    }
    let heart_rate: u16 = if rate_is_16bit {
        data[1] as u16 + data[2] as u16 * 256
    } else {
        data[1] as u16
    };
    let sensor_contact: Option<bool> = if flags & 0x04 != 0 {
        Some(flags & 0x02 != 0)
    } else {
        None
    };
    Ok(Reading { timestamp, heart_rate, sensor_contact, device_connected: true })
}

/// Decodes a payload and stamps the reading with the current wall-clock time.
/// The timestamp depends on the clock, so the contract pins every other field.
pub fn decode_measurement_now(data: &Vec<u8>) -> (r: Result<Reading, DecodeError>)
    ensures
        r is Ok <==> well_formed(data@),
        r matches Ok(reading) ==> {
            &&& reading.heart_rate == spec_heart_rate(data@)
            &&& reading.sensor_contact == spec_sensor_contact(data@[0])
            &&& reading.device_connected
            &&& reading.timestamp@.len() >= 19
        },
        r matches Err(e) ==> e == DecodeError::MalformedMeasurement,
{
    let timestamp = now_timestamp();
    decode_measurement(data, timestamp)
}

/// With flag bit 0 unset, the decoded rate is exactly the byte at offset 1,
/// so it never exceeds 255.
pub proof fn lemma_rate_8bit(data: Seq<u8>)
    requires
        data.len() >= 2,
        !flag_rate_is_16bit(data[0]),
    ensures
        well_formed(data),
        spec_heart_rate(data) == data[1],
        spec_heart_rate(data) <= 255,
{
}

/// With flag bit 0 set and both BPM bytes present, the decoded rate is the
/// little-endian combination of the bytes at offsets 1 and 2.
pub proof fn lemma_rate_16bit(data: Seq<u8>)
    requires
        data.len() >= 3,
        flag_rate_is_16bit(data[0]),
    ensures
        well_formed(data),
        spec_heart_rate(data) == data[1] + data[2] * 256,
{
}

/// The contact field is absent exactly when flag bit 2 is unset, whatever
/// bit 1 says.
pub proof fn lemma_contact_none_iff_unsupported(flags: u8)
    ensures
        spec_sensor_contact(flags) is None <==> !flag_contact_supported(flags),
{
}

/// Whenever flag bit 2 is set, the contact field carries exactly flag bit 1.
pub proof fn lemma_contact_some_when_supported(flags: u8)
    requires
        flag_contact_supported(flags),
    ensures
        spec_sensor_contact(flags) == Some(flag_contact_detected(flags)),
{
}

} // verus!
