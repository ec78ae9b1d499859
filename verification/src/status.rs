//! The device's tri-state air-quality indicator and its wire encoding.

use vstd::prelude::*;

verus! {

/// CO2 concentration status, as displayed by the device.
///
/// On the wire the status is one byte: 1 for `GREEN`, 2 for `AMBER`,
/// 3 for `RED`. No other byte is a valid status.
#[derive(Debug, PartialEq, Eq, Clone, Copy, Structural)]
pub enum Status {
    GREEN,
    AMBER,
    RED,
}

/// The status a wire byte stands for, if any.
pub open spec fn status_of_wire(v: u8) -> Option<Status> {
    if v == 1 {
        Some(Status::GREEN)
    } else if v == 2 {
        Some(Status::AMBER)
    } else if v == 3 {
        Some(Status::RED)
    } else {
        None
    }
}

/// The wire byte that encodes a status.
pub open spec fn wire_of_status(s: Status) -> u8 {
    match s {
        Status::GREEN => 1,
        Status::AMBER => 2,
        Status::RED => 3,
    }
}

impl Status {
    /// Decode a wire byte. Bytes outside {1, 2, 3} are rejected, never
    /// mapped to a default status.
    pub fn from_wire(v: u8) -> (r: Option<Status>)
        ensures
            r == status_of_wire(v),
    {
        match v {
            1 => Some(Status::GREEN),
            2 => Some(Status::AMBER),
            3 => Some(Status::RED),
            _ => None,
        }
    }

    /// Encode the status as its wire byte.
    pub fn to_wire(&self) -> (r: u8)
        ensures
            r == wire_of_status(*self),
    {
        match self {
            Status::GREEN => 1,
            Status::AMBER => 2,
            Status::RED => 3,
        }
    }
}

/// Law: decoding a wire byte and encoding the status again gives the byte
/// back, and encoding any status yields a byte that decodes to it.
pub proof fn lemma_status_wire_round_trip(v: u8, s: Status)
    ensures
        status_of_wire(v) matches Some(t) ==> wire_of_status(t) == v,
        status_of_wire(wire_of_status(s)) == Some(s),
{
}

} // verus!
