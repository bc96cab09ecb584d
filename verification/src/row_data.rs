//! The telemetry snapshot value and its textual wire formats.
//!
//! The wire object has exactly three named integer fields — `cals`,
//! `stroke_rate`, `stroke_cals` — rendered as a JSON object in that order.
//! A plain status line exists for the file sink.

use vstd::prelude::*;
use vstd::string::StringExecFns;

use crate::text::dec_of;
use crate::text::u32_to_decimal;

verus! {

/// Latest known value of each tracked metric.
#[derive(Clone, Copy, Debug, PartialEq, Eq, Structural)]
pub struct RowData {
    pub cals: u32,
    pub stroke_rate: u32,
    pub stroke_cals: u32,
}

impl RowData {
    /// All-zero snapshot, the state at session start.
    pub open spec fn spec_zero() -> RowData {
        RowData { cals: 0, stroke_rate: 0, stroke_cals: 0 }
    }

    /// Runtime counterpart of [`RowData::spec_zero`].
    pub fn zero() -> (r: RowData)
        ensures
            r == RowData::spec_zero(),
    {
        RowData { cals: 0, stroke_rate: 0, stroke_cals: 0 }
    }
}

/// The serialized snapshot: a JSON object with the three metric fields.
pub open spec fn json_of(d: RowData) -> Seq<char> {
    "{\"cals\":"@ + dec_of(d.cals as nat) + ",\"stroke_rate\":"@ + dec_of(d.stroke_rate as nat)
        + ",\"stroke_cals\":"@ + dec_of(d.stroke_cals as nat) + "}"@
}

/// Serializes a snapshot for distribution.
pub fn row_data_to_json(d: &RowData) -> (r: String)
    ensures
        r@ == json_of(*d),
{
    let mut r = String::new();
    r.append("{\"cals\":");
    r.append(u32_to_decimal(d.cals).as_str());
    r.append(",\"stroke_rate\":");
    r.append(u32_to_decimal(d.stroke_rate).as_str());
    r.append(",\"stroke_cals\":");
    r.append(u32_to_decimal(d.stroke_cals).as_str());
    r.append("}");
    proof {
        assert(r@ =~= json_of(*d));
    }
    r
}

/// The status line written to the status file.
pub open spec fn info_line_of(cals: u32, stroke_rate: u32, stroke_cals: u32) -> Seq<char> {
    dec_of(cals as nat) + " cal, "@ + dec_of(stroke_rate as nat) + " strokes/m, "@ + dec_of(
        stroke_cals as nat,
    ) + " cal/h"@
}

/// Renders the rowing status line; the caller owns the file sink and writes
/// the returned text out.
pub fn write_rowing_info_to_file(cals: &u32, stroke_rate: &u32, stroke_cals: &u32) -> (r: String)
    ensures
        r@ == info_line_of(*cals, *stroke_rate, *stroke_cals),
{
    let mut r = u32_to_decimal(*cals);
    r.append(" cal, ");
    r.append(u32_to_decimal(*stroke_rate).as_str());
    r.append(" strokes/m, ");
    r.append(u32_to_decimal(*stroke_cals).as_str());
    r.append(" cal/h");
    proof {
        assert(r@ =~= info_line_of(*cals, *stroke_rate, *stroke_cals));
    }
    r
}

} // verus!
