//! Error taxonomy of the bridge.
//!
//! Discovery failures end the run; decode failures drop a single notification
//! and the session continues. Connection retry is handled by the session
//! state machine, and per-sink delivery failures are reported by the
//! distribution step itself, so neither needs a variant here.

use vstd::prelude::*;

verus! {

/// Failure while looking for a radio or a performance monitor.
#[derive(Clone, Copy, Debug, PartialEq, Eq, Structural)]
pub enum DiscoveryError {
    /// The radio stack reported zero adapters.
    NoAdapterFound,
    /// No scanned peripheral carried the performance-monitor marker.
    NoPeripheralFound,
}

/// Failure while decoding one notification; that update is dropped.
#[derive(Clone, Copy, Debug, PartialEq, Eq, Structural)]
pub enum DecodeError {
    /// The notification's characteristic id selects no tracked metric.
    UnrecognizedCharacteristic,
    /// The payload is shorter than the highest offset its decoder reads.
    MalformedPayload,
}

impl DiscoveryError {
    /// Human-readable description, for the operator.
    pub fn message(&self) -> (r: String)
        ensures
            r@ == match *self {
                DiscoveryError::NoAdapterFound => "Couldn't find bluetooth adapter"@,
                DiscoveryError::NoPeripheralFound => "BLE peripheral devices were not found, sorry."@,
            },
    {
        match self {
            DiscoveryError::NoAdapterFound => "Couldn't find bluetooth adapter".to_owned(),
            DiscoveryError::NoPeripheralFound => {
                "BLE peripheral devices were not found, sorry.".to_owned()
            },
        }
    }
}

impl DecodeError {
    /// Human-readable description, for the log.
    pub fn message(&self) -> (r: String)
        ensures
            r@ == match *self {
                DecodeError::UnrecognizedCharacteristic => "unknown characteristic uuid"@,
                DecodeError::MalformedPayload => "notification payload too short"@,
            },
    {
        match self {
            DecodeError::UnrecognizedCharacteristic => "unknown characteristic uuid".to_owned(),
            DecodeError::MalformedPayload => "notification payload too short".to_owned(),
        }
    }
}

} // verus!
