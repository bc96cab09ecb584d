//! The snapshot store: merges per-characteristic notification updates into
//! the combined telemetry snapshot.
//!
//! Each recognized, well-formed notification assigns exactly one field of the
//! snapshot and leaves the other two as they were; a notification that cannot
//! be decoded leaves the whole snapshot untouched. The store never resets
//! during a session.

use vstd::prelude::*;

use crate::decode::decode_notification;
use crate::decode::decoded_value;
use crate::decode::field_of;
use crate::decode::min_payload_len;
use crate::decode::MetricField;
use crate::errors::DecodeError;
use crate::row_data::RowData;

verus! {

/// One notification, as the radio edge hands it in: the characteristic that
/// fired and the raw payload.
#[derive(Debug)]
pub struct Notification {
    pub characteristic: u128,
    pub payload: Vec<u8>,
}

impl Notification {
    /// The pair the specification functions work on.
    pub open spec fn view_pair(self) -> (u128, Seq<u8>) {
        (self.characteristic, self.payload@)
    }
}

/// Value of one snapshot field.
pub open spec fn field_value(d: RowData, field: MetricField) -> u32 {
    match field {
        MetricField::StrokeRate => d.stroke_rate,
        MetricField::Cals => d.cals,
        MetricField::StrokeCals => d.stroke_cals,
    }
}

/// Snapshot with one field replaced and the other two kept.
pub open spec fn updated(d: RowData, field: MetricField, value: u32) -> RowData {
    match field {
        MetricField::StrokeRate => RowData { stroke_rate: value, ..d },
        MetricField::Cals => RowData { cals: value, ..d },
        MetricField::StrokeCals => RowData { stroke_cals: value, ..d },
    }
}

/// Whether a notification assigns the given field: its characteristic selects
/// the field and its payload is long enough to decode.
pub open spec fn targets(n: (u128, Seq<u8>), field: MetricField) -> bool {
    field_of(n.0) == Some(field) && n.1.len() >= min_payload_len(field)
}

/// Effect of one notification on a snapshot: the selected field is assigned
/// its decoded value, and a notification that cannot be decoded changes
/// nothing.
pub open spec fn apply_one(d: RowData, n: (u128, Seq<u8>)) -> RowData {
    match field_of(n.0) {
        Some(field) => if n.1.len() >= min_payload_len(field) {
            updated(d, field, decoded_value(field, n.1))
        } else {
            d
        },
        None => d,
    }
}

/// Effect of a whole sequence of notifications, in delivery order.
pub open spec fn apply_all(d: RowData, ns: Seq<(u128, Seq<u8>)>) -> RowData
    decreases ns.len(),
{
    if ns.len() == 0 {
        d
    } else {
        apply_one(apply_all(d, ns.drop_last()), ns.last())
    }
}

/// Holds the latest value of each tracked metric; written only by the
/// session's notification loop.
pub struct SnapshotStore {
    data: RowData,
}

impl View for SnapshotStore {
    type V = RowData;

    closed spec fn view(&self) -> RowData {
        self.data
    }
}

impl SnapshotStore {
    /// A fresh store: all metrics zero.
    pub fn new() -> (r: SnapshotStore)
        ensures
            r@ == RowData::spec_zero(),
    {
        SnapshotStore { data: RowData::zero() }
    }

    /// Assigns one field and keeps the other two: a merge, not a replace.
    pub fn update_field(&mut self, field: MetricField, value: u32)
        ensures
            final(self)@ == updated(old(self)@, field, value),
            field_value(final(self)@, field) == value,
            forall|other: MetricField| other != field ==> field_value(final(self)@, other)
                == field_value(old(self)@, other),
    {
        match field {
            MetricField::StrokeRate => self.data.stroke_rate = value,
            MetricField::Cals => self.data.cals = value,
            MetricField::StrokeCals => self.data.stroke_cals = value,
        }
    }

    /// The current snapshot, as a copy: readers never hold a reference into
    /// the store while the loop keeps writing.
    pub fn current(&self) -> (r: RowData)
        ensures
            r == self@,
    {
        self.data
    }

    /// Decodes one notification and merges it in. On success the returned
    /// snapshot is the new store value, ready for one distribution attempt;
    /// on failure the store is untouched and that single update is dropped.
    pub fn handle_notification(&mut self, characteristic: u128, payload: &[u8]) -> (r: Result<
        RowData,
        DecodeError,
    >)
        ensures
            final(self)@ == apply_one(old(self)@, (characteristic, payload@)),
            match r {
                Ok(snap) => {
                    &&& exists|field: MetricField| targets((characteristic, payload@), field)
                    &&& snap == final(self)@
                },
                Err(e) => {
                    &&& final(self)@ == old(self)@
                    &&& (e == DecodeError::UnrecognizedCharacteristic <==> field_of(
                        characteristic,
                    ) is None)
                    &&& (e == DecodeError::MalformedPayload <==> (field_of(characteristic) is Some
                        && payload@.len() < min_payload_len(field_of(characteristic)->Some_0)))
                },
            },
    {
        match decode_notification(characteristic, payload) {
            Ok((field, value)) => {
                self.update_field(field, value);
                proof {
                    assert(targets((characteristic, payload@), field));
                }
                Ok(self.current())
            },
            Err(e) => Err(e),
        }
    }

    /// Merges a whole batch of notifications, in order.
    pub fn apply_notifications(&mut self, batch: &Vec<Notification>)
        ensures
            final(self)@ == apply_all(old(self)@, batch@.map_values(|n: Notification| n.view_pair())),
    {
        let ghost pairs = batch@.map_values(|n: Notification| n.view_pair());
        let mut i: usize = 0;
        while i < batch.len()
            invariant
                i <= batch.len(),
                pairs == batch@.map_values(|n: Notification| n.view_pair()),
                self@ == apply_all(old(self)@, pairs.take(i as int)),
            decreases batch.len() - i,
        {
            let n = &batch[i];
            let _ = self.handle_notification(n.characteristic, n.payload.as_slice());
            proof {
                assert(pairs.take(i + 1).drop_last() =~= pairs.take(i as int));
                assert(pairs.take(i + 1).last() == pairs[i as int]);
            }
            i = i + 1;
        }
        proof {
            assert(pairs.take(batch@.len() as int) =~= pairs);
        }
    }
}

/// Law: one recognized, well-formed notification assigns exactly its own
/// field and keeps the other two at their immediately prior values — the
/// merge is never a replace.
pub proof fn lemma_one_field_per_notification(d: RowData, n: (u128, Seq<u8>), field: MetricField)
    requires
        targets(n, field),
    ensures
        field_value(apply_one(d, n), field) == decoded_value(field, n.1),
        forall|other: MetricField| other != field ==> field_value(apply_one(d, n), other)
            == field_value(d, other),
{
}

/// Law: after any sequence of notifications, each field holds the decoded
/// value of the last notification that targeted it, and its initial value if
/// none did — later notifications contribute nothing to earlier snapshots.
pub proof fn lemma_last_update_wins(d: RowData, ns: Seq<(u128, Seq<u8>)>, field: MetricField)
    ensures
        (forall|i: int| 0 <= i < ns.len() ==> !targets(ns[i], field)) ==> field_value(
            apply_all(d, ns),
            field,
        ) == field_value(d, field),
        forall|j: int|
            0 <= j < ns.len() && targets(ns[j], field) && (forall|i: int|
                j < i < ns.len() ==> !targets(ns[i], field)) ==> field_value(
                apply_all(d, ns),
                field,
            ) == decoded_value(field, ns[j].1),
    decreases ns.len(),
{
    if ns.len() > 0 {
        lemma_last_update_wins(d, ns.drop_last(), field);
        let prev = apply_all(d, ns.drop_last());
        let last = ns.last();
        if targets(last, field) {
            lemma_one_field_per_notification(prev, last, field);
        }
        assert forall|j: int|
            0 <= j < ns.len() && targets(ns[j], field) && (forall|i: int|
                j < i < ns.len() ==> !targets(ns[i], field)) implies field_value(
            apply_all(d, ns),
            field,
        ) == decoded_value(field, ns[j].1) by {
            if j == ns.len() - 1 {
                lemma_one_field_per_notification(prev, last, field);
            } else {
                assert(forall|i: int| j < i < ns.len() - 1 ==> !targets(ns.drop_last()[i], field));
                assert(ns.drop_last()[j] == ns[j]);
            }
        }
    }
}

/// Law: the snapshot observed after the first `k` notifications is the fold
/// of exactly those `k`, so for each field it reflects the last of them that
/// targeted the field and nothing later in the stream.
pub proof fn lemma_snapshot_after_prefix(
    d: RowData,
    ns: Seq<(u128, Seq<u8>)>,
    k: int,
    field: MetricField,
)
    requires
        0 <= k <= ns.len(),
    ensures
        (forall|i: int| 0 <= i < k ==> !targets(ns[i], field)) ==> field_value(
            apply_all(d, ns.take(k)),
            field,
        ) == field_value(d, field),
        forall|j: int|
            0 <= j < k && targets(ns[j], field) && (forall|i: int|
                j < i < k ==> !targets(ns[i], field)) ==> field_value(
                apply_all(d, ns.take(k)),
                field,
            ) == decoded_value(field, ns[j].1),
{
    lemma_last_update_wins(d, ns.take(k), field);
    assert(forall|i: int| 0 <= i < k ==> ns.take(k)[i] == ns[i]);
}

} // verus!
