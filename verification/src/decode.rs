//! Telemetry decoding: pure byte-to-integer mappings keyed by the
//! characteristic that fired the notification.
//!
//! The performance monitor exposes one GATT service with three subscribed
//! characteristics. Each characteristic id selects one tracked metric and one
//! decoder; two-byte fields are little-endian (`low + high * 256`), and the
//! stroke-rate field is a single byte.

use vstd::prelude::*;

use crate::errors::DecodeError;

verus! {

/// GATT service of the performance monitor, as a 128-bit uuid value.
pub const PM_SERVICE_UUID: u128 = 0xCE060030_43E5_11E4_916C_0800200C9A66;

/// Characteristic carrying the stroke rate (one byte at offset 5).
pub const ROWING_STATUS_2_UUID: u128 = 0xCE060032_43E5_11E4_916C_0800200C9A66;

/// Characteristic carrying total calories (two bytes at offsets 6 and 7).
pub const ROWING_STATUS_3_UUID: u128 = 0xCE060033_43E5_11E4_916C_0800200C9A66;

/// Characteristic carrying stroke calories (two bytes at offsets 6 and 7).
pub const ROWING_STATUS_6_UUID: u128 = 0xCE060036_43E5_11E4_916C_0800200C9A66;

/// Client-characteristic-configuration descriptor paired with each
/// subscription.
pub const CCC_DESCRIPTOR_UUID: u128 = 0x00002902_0000_1000_8000_00805f9b34fb;

/// One tracked metric of the telemetry snapshot.
#[derive(Clone, Copy, Debug, PartialEq, Eq, Structural)]
pub enum MetricField {
    StrokeRate,
    Cals,
    StrokeCals,
}

/// The metric a characteristic id selects, if any.
pub open spec fn field_of(characteristic: u128) -> Option<MetricField> {
    if characteristic == ROWING_STATUS_2_UUID {
        Some(MetricField::StrokeRate)
    } else if characteristic == ROWING_STATUS_3_UUID {
        Some(MetricField::Cals)
    } else if characteristic == ROWING_STATUS_6_UUID {
        Some(MetricField::StrokeCals)
    } else {
        None
    }
}

/// Least payload length each decoder needs: one past its highest offset.
pub open spec fn min_payload_len(field: MetricField) -> nat {
    match field {
        MetricField::StrokeRate => 6,
        MetricField::Cals => 8,
        MetricField::StrokeCals => 8,
    }
}

/// Value a well-formed payload decodes to for the given metric.
pub open spec fn decoded_value(field: MetricField, payload: Seq<u8>) -> u32
    recommends
        payload.len() >= min_payload_len(field),
{
    match field {
        MetricField::StrokeRate => payload[5] as u32,
        MetricField::Cals => (payload[6] + payload[7] * 256) as u32,
        MetricField::StrokeCals => (payload[6] + payload[7] * 256) as u32,
    }
}

/// Runtime counterpart of [`field_of`].
pub fn characteristic_field(characteristic: u128) -> (r: Option<MetricField>)
    ensures
        r == field_of(characteristic),
{
    if characteristic == ROWING_STATUS_2_UUID {
        Some(MetricField::StrokeRate)
    } else if characteristic == ROWING_STATUS_3_UUID {
        Some(MetricField::Cals)
    } else if characteristic == ROWING_STATUS_6_UUID {
        Some(MetricField::StrokeCals)
    } else {
        None
    }
}

/// The three characteristic ids the session subscribes to, in subscription
/// order; exactly the ids that select a metric.
pub fn monitored_characteristics() -> (r: Vec<u128>)
    ensures
        r@ == seq![ROWING_STATUS_2_UUID, ROWING_STATUS_3_UUID, ROWING_STATUS_6_UUID],
        forall|id: u128| field_of(id) is Some <==> r@.contains(id),
{
    let r: Vec<u128> = vec![ROWING_STATUS_2_UUID, ROWING_STATUS_3_UUID, ROWING_STATUS_6_UUID];
    proof {
        assert(forall|id: u128| field_of(id) is Some ==> r@.contains(id)) by {
            assert(r@[0] == ROWING_STATUS_2_UUID);
            assert(r@[1] == ROWING_STATUS_3_UUID);
            assert(r@[2] == ROWING_STATUS_6_UUID);
        }
    }
    r
}

/// Stroke rate: the single byte at offset 5.
pub fn get_stroke_rate_from_bytes(data: &[u8]) -> (r: u32)
    requires
        data@.len() >= 6,
    ensures
        r == decoded_value(MetricField::StrokeRate, data@),
{
    let stroke_rate: u32 = data[5] as u32;
    stroke_rate
}

/// Total calories: little-endian pair at offsets 6 and 7.
pub fn get_cals_from_bytes(data: &[u8]) -> (r: u32)
    requires
        data@.len() >= 8,
    ensures
        r == decoded_value(MetricField::Cals, data@),
        r == data@[6] + data@[7] * 256,
{
    let cals_high: u32 = data[7] as u32;
    let cals_low: u32 = data[6] as u32;
    cals_low + cals_high * 256
}

/// Split calories: little-endian pair at offsets 12 and 13. Not part of the
/// tracked snapshot; kept for callers reading the same status page.
pub fn get_split_cals_from_bytes(data: &[u8]) -> (r: u32)
    requires
        data@.len() >= 14,
    ensures
        r == data@[12] + data@[13] * 256,
{
    let cals_high: u32 = data[13] as u32;
    let cals_low: u32 = data[12] as u32;
    cals_low + cals_high * 256
}

/// Stroke calories: little-endian pair at offsets 6 and 7.
pub fn get_stroke_cals_from_bytes(data: &[u8]) -> (r: u32)
    requires
        data@.len() >= 8,
    ensures
        r == decoded_value(MetricField::StrokeCals, data@),
        r == data@[6] + data@[7] * 256,
{
    let stroke_cals_high: u32 = data[7] as u32;
    let stroke_cals_low: u32 = data[6] as u32;
    stroke_cals_low + stroke_cals_high * 256
}

/// Decodes one notification: picks the metric its characteristic id selects
/// and reads the metric's bytes, rejecting ids that select nothing and
/// payloads shorter than the decoder's highest offset.
pub fn decode_notification(characteristic: u128, payload: &[u8]) -> (r: Result<
    (MetricField, u32),
    DecodeError,
>)
    ensures
        match field_of(characteristic) {
            None => r == Err::<(MetricField, u32), DecodeError>(
                DecodeError::UnrecognizedCharacteristic,
            ),
            Some(field) => if payload@.len() >= min_payload_len(field) {
                r == Ok::<(MetricField, u32), DecodeError>((
                    field,
                    decoded_value(field, payload@),
                ))
            } else {
                r == Err::<(MetricField, u32), DecodeError>(DecodeError::MalformedPayload)
            },
        },
{
    match characteristic_field(characteristic) {
        None => Err(DecodeError::UnrecognizedCharacteristic),
        Some(field) => match field {
            MetricField::StrokeRate => {
                if payload.len() >= 6 {
                    Ok((field, get_stroke_rate_from_bytes(payload)))
                } else {
                    Err(DecodeError::MalformedPayload)
                }
            },
            MetricField::Cals => {
                if payload.len() >= 8 {
                    Ok((field, get_cals_from_bytes(payload)))
                } else {
                    Err(DecodeError::MalformedPayload)
                }
            },
            MetricField::StrokeCals => {
                if payload.len() >= 8 {
                    Ok((field, get_stroke_cals_from_bytes(payload)))
                } else {
                    Err(DecodeError::MalformedPayload)
                }
            },
        },
    }
}

} // verus!
