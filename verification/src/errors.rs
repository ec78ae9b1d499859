//! The two error families the client surfaces to its caller.

use vstd::prelude::*;
use crate::identity::IdentityField;

verus! {

/// Errors that can occur while discovering and connecting to a device.
/// All of them are fatal to the connect attempt: the caller must restart
/// discovery from scratch.
#[derive(Debug, PartialEq, Eq, Clone)]
pub enum ConnectionError {
    /// No Bluetooth adapter was available.
    AdapterUnavailable,
    /// No matching peripheral was found before the discovery timeout.
    SearchTimeout,
    /// The connected peripheral does not expose the required
    /// characteristic; carries that characteristic's UUID.
    CharacteristicNotFound(u128),
    /// An underlying transport error, preserved verbatim as its message.
    Transport(String),
}

/// What made a current-readings payload undecodable.
#[derive(Debug, PartialEq, Eq, Clone, Copy, Structural)]
pub enum DecodeFault {
    /// The payload was shorter than the fixed thirteen-byte layout.
    ShortBuffer,
    /// The status byte was outside {1, 2, 3}; carries the offending byte.
    InvalidStatus(u8),
}

/// Errors that can occur when reading data from a connected device.
/// Fatal to the individual operation; the handle stays usable.
#[derive(Debug, PartialEq, Eq, Clone)]
pub enum DeviceError {
    /// One of the six identity characteristics was never observed on the
    /// device; names the missing field.
    MissingAttribute(IdentityField),
    /// The device broadcast a value that does not decode as UTF-8; names
    /// the field whose value was invalid.
    InvalidAttribute(IdentityField),
    /// A malformed current-readings payload at the decode layer.
    IO(DecodeFault),
    /// An underlying transport error, preserved verbatim as its message.
    Transport(String),
}

} // verus!
