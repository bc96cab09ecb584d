use rower_bridge::decode::characteristic_field;
use rower_bridge::decode::decode_notification;
use rower_bridge::decode::get_cals_from_bytes;
use rower_bridge::decode::get_split_cals_from_bytes;
use rower_bridge::decode::get_stroke_cals_from_bytes;
use rower_bridge::decode::get_stroke_rate_from_bytes;
use rower_bridge::decode::monitored_characteristics;
use rower_bridge::decode::MetricField;
use rower_bridge::decode::ROWING_STATUS_2_UUID;
use rower_bridge::decode::ROWING_STATUS_3_UUID;
use rower_bridge::decode::ROWING_STATUS_6_UUID;
use rower_bridge::errors::DecodeError;

#[test]
fn cals_little_endian_pair_at_6_7() {
    let data = [0u8, 0, 0, 0, 0, 0, 0x10, 0x01];
    assert_eq!(get_cals_from_bytes(&data), 0x01 * 256 + 0x10);
    assert_eq!(get_cals_from_bytes(&data), 272);
}

#[test]
fn cals_max_value() {
    let data = [0u8, 0, 0, 0, 0, 0, 0xFF, 0xFF];
    assert_eq!(get_cals_from_bytes(&data), 65535);
}

#[test]
fn stroke_rate_single_byte_at_5() {
    let data = [9u8, 9, 9, 9, 9, 31, 9, 9];
    assert_eq!(get_stroke_rate_from_bytes(&data), 31);
}

#[test]
fn stroke_cals_little_endian_pair_at_6_7() {
    let data = [0u8, 0, 0, 0, 0, 0, 0x02, 0x03];
    assert_eq!(get_stroke_cals_from_bytes(&data), 3 * 256 + 2);
}

#[test]
fn split_cals_little_endian_pair_at_12_13() {
    let data = [0u8, 0, 0, 0, 0, 0, 0, 0, 0, 0, 0, 0, 0x05, 0x02];
    assert_eq!(get_split_cals_from_bytes(&data), 2 * 256 + 5);
}

#[test]
fn characteristic_selects_its_metric() {
    assert_eq!(
        characteristic_field(ROWING_STATUS_2_UUID),
        Some(MetricField::StrokeRate)
    );
    assert_eq!(
        characteristic_field(ROWING_STATUS_3_UUID),
        Some(MetricField::Cals)
    );
    assert_eq!(
        characteristic_field(ROWING_STATUS_6_UUID),
        Some(MetricField::StrokeCals)
    );
    assert_eq!(characteristic_field(0), None);
}

#[test]
fn decode_notification_reads_the_selected_field() {
    let data = [0u8, 0, 0, 0, 0, 0, 0x10, 0x01];
    assert_eq!(
        decode_notification(ROWING_STATUS_3_UUID, &data),
        Ok((MetricField::Cals, 272))
    );
}

#[test]
fn unrecognized_characteristic_is_reported() {
    let data = [0u8; 8];
    assert_eq!(
        decode_notification(0xDEAD_BEEF, &data),
        Err(DecodeError::UnrecognizedCharacteristic)
    );
}

#[test]
fn short_payload_is_malformed() {
    let data = [0u8; 7];
    assert_eq!(
        decode_notification(ROWING_STATUS_3_UUID, &data),
        Err(DecodeError::MalformedPayload)
    );
    let data = [0u8; 5];
    assert_eq!(
        decode_notification(ROWING_STATUS_2_UUID, &data),
        Err(DecodeError::MalformedPayload)
    );
    let data = [0u8; 0];
    assert_eq!(
        decode_notification(ROWING_STATUS_6_UUID, &data),
        Err(DecodeError::MalformedPayload)
    );
}

#[test]
fn exactly_three_monitored_characteristics() {
    let ids = monitored_characteristics();
    assert_eq!(
        ids,
        vec![ROWING_STATUS_2_UUID, ROWING_STATUS_3_UUID, ROWING_STATUS_6_UUID]
    );
}
