//! Decoder for the heart-rate measurement notification payload.
//!
//! Byte 0 is a flags field: bit 0 selects the value width (set: bytes 1 and 2
//! form a little-endian 16-bit value; clear: byte 1 alone is the value), and
//! bits 1 and 2 carry the optional sensor-contact status. Energy-expenditure
//! and RR-interval fields are ignored.

use vstd::prelude::*;

verus! {

/// One decoded heart-rate measurement.
#[derive(Debug, Clone, Copy, PartialEq, Eq, Structural)]
pub struct HeartRateSample {
    /// Heart rate in beats per minute.
    pub value: u16,
    /// Sensor-contact status: present only when the flags announce it.
    pub sensor_contact: Option<bool>,
}

/// Why a payload could not be decoded.
#[derive(Debug, Clone, Copy, PartialEq, Eq, Structural)]
pub enum HeartRateParseError {
    /// The payload held no bytes at all.
    EmptyPayload,
    /// The payload was too short for the value width its flags selected.
    TruncatedPayload,
}

/// Bit 0 of the flags selects the 16-bit value encoding.
pub open spec fn wide_format(flags: u8) -> bool {
    flags % 2 == 1
}

/// Bytes the payload must hold for the value width its flags select.
pub open spec fn required_len(flags: u8) -> int {
    if wide_format(flags) {
        3
    } else {
        2
    }
}

/// Sensor-contact status carried by the flags: bit 2 says whether the status
/// is present, bit 1 gives the state.
pub open spec fn contact_of(flags: u8) -> Option<bool> {
    if (flags / 4) % 2 == 1 {
        Some((flags / 2) % 2 == 1)
    } else {
        None
    }
}

/// The heart-rate value of a payload long enough for its flags.
pub open spec fn value_of(data: Seq<u8>) -> u16
    recommends
        data.len() >= required_len(data[0]),
{
    if wide_format(data[0]) {
        (data[1] + 256 * data[2]) as u16
    } else {
        data[1] as u16
    }
}

/// Decodes a heart-rate measurement payload.
pub fn parse_heart_rate(data: &[u8]) -> (r: Result<HeartRateSample, HeartRateParseError>)
    ensures
        data@.len() == 0 ==> r == Err::<HeartRateSample, HeartRateParseError>(
            HeartRateParseError::EmptyPayload,
        ),
        data@.len() > 0 && data@.len() < required_len(data@[0]) ==> r == Err::<
            HeartRateSample,
            HeartRateParseError,
        >(HeartRateParseError::TruncatedPayload),
        data@.len() > 0 && data@.len() >= required_len(data@[0]) ==> r == Ok::<
            HeartRateSample,
            HeartRateParseError,
        >(
            HeartRateSample {
                value: value_of(data@),
                sensor_contact: contact_of(data@[0]),
            },
        ),
{
    if data.len() == 0 {
        return Err(HeartRateParseError::EmptyPayload);
    }
    let flags = data[0];
    let value: u16 = if flags % 2 == 1 {
        if data.len() < 3 {
            return Err(HeartRateParseError::TruncatedPayload);
        }
        data[1] as u16 + 256 * (data[2] as u16)
    } else {
        if data.len() < 2 {
            return Err(HeartRateParseError::TruncatedPayload);
        }
        data[1] as u16
    };
    let sensor_contact: Option<bool> = if (flags / 4) % 2 == 1 {
        Some((flags / 2) % 2 == 1)
    } else {
        None
    };
    Ok(HeartRateSample { value, sensor_contact })
}

} // verus!
