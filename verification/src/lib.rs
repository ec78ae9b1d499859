//! Client-side core for a Bluetooth Low Energy environmental sensor.
//!
//! The library holds the protocol logic of the client: the registry of the
//! GATT characteristic identifiers the device exposes, the decoder for the
//! fixed-layout current-readings payload, the resolver that assembles a
//! device-identity record from characteristic values, and the decision
//! functions of the discovery / connection state machine. Transport work
//! (scanning, connecting, reading characteristics) is left to the caller,
//! who feeds the observed plain values into these functions.

pub mod discovery;
pub mod errors;
pub mod identity;
pub mod measurement;
pub mod status;
pub mod uuids;
