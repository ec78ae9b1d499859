//! Registry of the 128-bit GATT UUIDs the client relies on.
//!
//! A UUID is carried as a `u128` holding the sixteen bytes of its textual
//! form in big-endian order, so `0000fce0-0000-1000-8000-00805f9b34fb`
//! becomes `0x0000fce0_0000_1000_8000_00805f9b34fb`.

use vstd::prelude::*;

verus! {

/// Service UUID the device advertises; discovery scans are filtered by it.
pub const ADVERTISED_SERVICE: u128 = 0x0000fce0_0000_1000_8000_00805f9b34fb;

/// Vendor characteristic holding the current-readings payload.
pub const CURRENT_READINGS_CHARACTERISTIC: u128 = 0xf0cd3001_95da_4f4b_9ac8_aa55d312af0c;

/// Device Information Service: model number string.
pub const MODEL_NUMBER_UUID: u128 = 0x00002a24_0000_1000_8000_00805f9b34fb;

/// Device Information Service: serial number string.
pub const SERIAL_NUMBER_UUID: u128 = 0x00002a25_0000_1000_8000_00805f9b34fb;

/// Device Information Service: firmware revision string.
pub const FIRMWARE_REVISION_UUID: u128 = 0x00002a26_0000_1000_8000_00805f9b34fb;

/// Device Information Service: hardware revision string.
pub const HARDWARE_REVISION_UUID: u128 = 0x00002a27_0000_1000_8000_00805f9b34fb;

/// Device Information Service: software revision string.
pub const SOFTWARE_REVISION_UUID: u128 = 0x00002a28_0000_1000_8000_00805f9b34fb;

/// Device Information Service: manufacturer name string.
pub const MANUFACTURER_NAME_UUID: u128 = 0x00002a29_0000_1000_8000_00805f9b34fb;

} // verus!
