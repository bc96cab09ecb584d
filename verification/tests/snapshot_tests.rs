use rower_bridge::decode::MetricField;
use rower_bridge::decode::ROWING_STATUS_2_UUID;
use rower_bridge::decode::ROWING_STATUS_3_UUID;
use rower_bridge::decode::ROWING_STATUS_6_UUID;
use rower_bridge::errors::DecodeError;
use rower_bridge::row_data::RowData;
use rower_bridge::snapshot::Notification;
use rower_bridge::snapshot::SnapshotStore;

fn cals_payload(low: u8, high: u8) -> Vec<u8> {
    vec![0, 0, 0, 0, 0, 0, low, high]
}

fn stroke_rate_payload(rate: u8) -> Vec<u8> {
    vec![0, 0, 0, 0, 0, rate]
}

#[test]
fn store_starts_all_zero() {
    let store = SnapshotStore::new();
    assert_eq!(
        store.current(),
        RowData { cals: 0, stroke_rate: 0, stroke_cals: 0 }
    );
}

#[test]
fn recognized_notification_changes_exactly_one_field() {
    let mut store = SnapshotStore::new();
    store.update_field(MetricField::StrokeRate, 27);
    store.update_field(MetricField::StrokeCals, 900);

    let before = store.current();
    let snap = store
        .handle_notification(ROWING_STATUS_3_UUID, &cals_payload(0x10, 0x01))
        .unwrap();

    assert_eq!(snap.cals, 272);
    assert_eq!(snap.stroke_rate, before.stroke_rate);
    assert_eq!(snap.stroke_cals, before.stroke_cals);
}

#[test]
fn merge_keeps_untouched_fields_across_a_sequence() {
    let mut store = SnapshotStore::new();

    let s1 = store
        .handle_notification(ROWING_STATUS_2_UUID, &stroke_rate_payload(24))
        .unwrap();
    assert_eq!(s1, RowData { cals: 0, stroke_rate: 24, stroke_cals: 0 });

    let s2 = store
        .handle_notification(ROWING_STATUS_3_UUID, &cals_payload(5, 0))
        .unwrap();
    assert_eq!(s2, RowData { cals: 5, stroke_rate: 24, stroke_cals: 0 });

    let s3 = store
        .handle_notification(ROWING_STATUS_6_UUID, &cals_payload(0, 2))
        .unwrap();
    assert_eq!(s3, RowData { cals: 5, stroke_rate: 24, stroke_cals: 512 });

    // A later value for the same field wins; the rest stays.
    let s4 = store
        .handle_notification(ROWING_STATUS_3_UUID, &cals_payload(6, 0))
        .unwrap();
    assert_eq!(s4, RowData { cals: 6, stroke_rate: 24, stroke_cals: 512 });
    assert_eq!(store.current(), s4);
}

#[test]
fn failed_decode_leaves_store_untouched() {
    let mut store = SnapshotStore::new();
    store.update_field(MetricField::Cals, 41);
    let before = store.current();

    let unknown = store.handle_notification(0x1234, &cals_payload(1, 1));
    assert_eq!(unknown, Err(DecodeError::UnrecognizedCharacteristic));
    assert_eq!(store.current(), before);

    let short = store.handle_notification(ROWING_STATUS_3_UUID, &[0, 0, 0]);
    assert_eq!(short, Err(DecodeError::MalformedPayload));
    assert_eq!(store.current(), before);
}

#[test]
fn batch_application_matches_one_by_one() {
    let batch = vec![
        Notification { characteristic: ROWING_STATUS_2_UUID, payload: stroke_rate_payload(18) },
        Notification { characteristic: ROWING_STATUS_3_UUID, payload: cals_payload(0x10, 0x01) },
        Notification { characteristic: 0x5555, payload: cals_payload(9, 9) },
        Notification { characteristic: ROWING_STATUS_2_UUID, payload: stroke_rate_payload(22) },
    ];

    let mut batched = SnapshotStore::new();
    batched.apply_notifications(&batch);

    let mut stepped = SnapshotStore::new();
    for n in &batch {
        let _ = stepped.handle_notification(n.characteristic, &n.payload);
    }

    assert_eq!(
        batched.current(),
        RowData { cals: 272, stroke_rate: 22, stroke_cals: 0 }
    );
    assert_eq!(batched.current(), stepped.current());
}
