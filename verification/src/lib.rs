//! Verified core of a rowing-machine telemetry bridge.
//!
//! A BLE performance monitor pushes characteristic notifications; this library
//! decodes them into metric values, merges them into a telemetry snapshot,
//! renders the snapshot in its textual wire format, and fans each update out
//! to the registered WebSocket subscribers. The surrounding process (radio,
//! sockets, prompts) lives outside the library and only hands plain values in.

pub mod decode;
pub mod errors;
pub mod registry;
pub mod row_data;
pub mod scan;
pub mod session;
pub mod snapshot;
pub mod text;

use vstd::prelude::*;

verus! {

} // verus!
