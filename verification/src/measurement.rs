//! The decoder for the fixed-layout current-readings payload.
//!
//! The payload is thirteen bytes, all multi-byte integers little-endian:
//! CO2 (two bytes, ppm), temperature (two bytes, twentieths of a degree
//! Celsius), pressure (two bytes, tenths of a hectopascal), humidity (one
//! byte, percent), battery (one byte, percent), status (one byte), the
//! measurement interval and the time since the last on-device update (two
//! bytes each, seconds).

use vstd::prelude::*;
use crate::errors::DecodeFault;
use crate::errors::DeviceError;
use crate::status::Status;
use crate::status::status_of_wire;
use crate::status::wire_of_status;

verus! {

/// Length of the current-readings payload in bytes.
pub const PAYLOAD_LEN: usize = 13;

/// Measurements from the device: an immutable snapshot of one read.
#[derive(Debug, PartialEq, Eq, Clone, Copy, Structural)]
pub struct SensorData {
    /// CO2 concentration in ppm.
    pub co2: u16,
    /// CO2 concentration status.
    pub status: Status,
    /// Percentage of battery remaining.
    pub battery: u8,
    /// Percentage of relative humidity.
    pub humidity: u8,
    /// Atmospheric pressure in hPa (the wire value divided by ten).
    pub pressure: u16,
    /// Temperature in twentieths of a degree Celsius, exactly as on the
    /// wire; degrees Celsius are this value divided by twenty.
    pub temperature: u16,
    /// Measurement interval in seconds.
    pub interval: u16,
    /// Time since the last on-device update, in seconds.
    pub since_last_update: u16,
}

/// The little-endian 16-bit integer at offset `i` of the buffer.
pub open spec fn u16_le(b: Seq<u8>, i: int) -> u16
    recommends
        0 <= i,
        i + 1 < b.len(),
{
    (b[i] + b[i + 1] * 256) as u16
}

/// What a buffer decodes to: the record read off the fixed layout, an
/// I/O-kind fault for a buffer shorter than the layout, and a decode
/// fault for a status byte outside {1, 2, 3} — never a default status.
/// Bytes beyond the thirteenth are ignored.
pub open spec fn decode_spec(b: Seq<u8>) -> Result<SensorData, DeviceError> {
    if b.len() < PAYLOAD_LEN {
        Err(DeviceError::IO(DecodeFault::ShortBuffer))
    } else {
        match status_of_wire(b[8]) {
            None => Err(DeviceError::IO(DecodeFault::InvalidStatus(b[8]))),
            Some(s) => Ok(SensorData {
                co2: u16_le(b, 0),
                temperature: u16_le(b, 2),
                pressure: u16_le(b, 4) / 10,
                humidity: b[6],
                battery: b[7],
                status: s,
                interval: u16_le(b, 9),
                since_last_update: u16_le(b, 11),
            }),
        }
    }
}

/// Read the little-endian 16-bit integer at offset `i`.
fn read_u16_le(payload: &Vec<u8>, i: usize) -> (r: u16)
    requires
        i + 1 < PAYLOAD_LEN,
        payload@.len() >= PAYLOAD_LEN,
    ensures
        r == u16_le(payload@, i as int),
{
    payload[i] as u16 + (payload[i + 1] as u16) * 256
}

/// Decode a current-readings payload.
///
/// A buffer shorter than the thirteen-byte layout is rejected whole — no
/// partially populated record — and a status byte outside {1, 2, 3} is a
/// decode error, never a silent default.
pub fn decode_measurement(payload: &Vec<u8>) -> (r: Result<SensorData, DeviceError>)
    ensures
        r == decode_spec(payload@),
        payload@.len() < PAYLOAD_LEN ==> r == Err::<SensorData, DeviceError>(
            DeviceError::IO(DecodeFault::ShortBuffer),
        ),
        payload@.len() >= PAYLOAD_LEN && status_of_wire(payload@[8]) is None ==> r == Err::<
            SensorData,
            DeviceError,
        >(DeviceError::IO(DecodeFault::InvalidStatus(payload@[8]))),
{
    if payload.len() < PAYLOAD_LEN {
        return Err(DeviceError::IO(DecodeFault::ShortBuffer));
    }
    let status = match Status::from_wire(payload[8]) {
        None => {
            return Err(DeviceError::IO(DecodeFault::InvalidStatus(payload[8])));
        },
        Some(s) => s,
    };
    Ok(SensorData {
        co2: read_u16_le(payload, 0),
        temperature: read_u16_le(payload, 2),
        pressure: read_u16_le(payload, 4) / 10,
        humidity: payload[6],
        battery: payload[7],
        status,
        interval: read_u16_le(payload, 9),
        since_last_update: read_u16_le(payload, 11),
    })
}

/// The two bytes of a 16-bit integer in little-endian order.
pub open spec fn le_bytes(v: u16) -> Seq<u8> {
    seq![(v % 256) as u8, (v / 256) as u8]
}

/// The thirteen-byte wire form of a record. Pressure is scaled back to
/// tenths of a hectopascal, so it must fit the wire's 16 bits.
pub open spec fn encode_spec(d: SensorData) -> Seq<u8>
    recommends
        d.pressure <= 6553,
{
    le_bytes(d.co2) + le_bytes(d.temperature) + le_bytes((d.pressure * 10) as u16) + seq![
        d.humidity,
        d.battery,
        wire_of_status(d.status),
    ] + le_bytes(d.interval) + le_bytes(d.since_last_update)
}

/// Encode a record back to the thirteen-byte wire layout.
pub fn encode_measurement(d: &SensorData) -> (r: Vec<u8>)
    requires
        d.pressure <= 6553,
    ensures
        r@ == encode_spec(*d),
        r@.len() == PAYLOAD_LEN,
{
    let mut out: Vec<u8> = Vec::new();
    out.push((d.co2 % 256) as u8);
    out.push((d.co2 / 256) as u8);
    out.push((d.temperature % 256) as u8);
    out.push((d.temperature / 256) as u8);
    let pressure_raw: u16 = d.pressure * 10;
    out.push((pressure_raw % 256) as u8);
    out.push((pressure_raw / 256) as u8);
    out.push(d.humidity);
    out.push(d.battery);
    out.push(d.status.to_wire());
    out.push((d.interval % 256) as u8);
    out.push((d.interval / 256) as u8);
    out.push((d.since_last_update % 256) as u8);
    out.push((d.since_last_update / 256) as u8);
    proof {
        assert(out@ =~= encode_spec(*d));
    }
    out
}

/// The little-endian bytes of a 16-bit value read back give the value.
proof fn lemma_le_bytes_of_u16(b: Seq<u8>, i: int)
    requires
        0 <= i,
        i + 1 < b.len(),
    ensures
        le_bytes(u16_le(b, i)) =~= seq![b[i], b[i + 1]],
{
    let v = u16_le(b, i);
    assert(v == b[i] + b[i + 1] * 256);
    assert(v % 256 == b[i] && v / 256 == b[i + 1]) by (nonlinear_arith)
        requires
            v == b[i] + b[i + 1] * 256,
            0 <= b[i] < 256,
            0 <= b[i + 1] < 256,
    ;
}

/// Law: encoding a record and decoding the wire bytes again gives the
/// record back exactly, for every record whose pressure fits the wire.
pub proof fn lemma_encode_then_decode(d: SensorData)
    requires
        d.pressure <= 6553,
    ensures
        decode_spec(encode_spec(d)) == Ok::<SensorData, DeviceError>(d),
{
    let e = encode_spec(d);
    assert(e.len() == PAYLOAD_LEN);
    assert(e[8] == wire_of_status(d.status));
    assert(status_of_wire(e[8]) == Some(d.status));
    assert(e[0] == d.co2 % 256 && e[1] == d.co2 / 256);
    assert(u16_le(e, 0) == d.co2);
    assert(e[2] == d.temperature % 256 && e[3] == d.temperature / 256);
    assert(u16_le(e, 2) == d.temperature);
    let p10 = (d.pressure * 10) as u16;
    assert(e[4] == p10 % 256 && e[5] == p10 / 256);
    assert(u16_le(e, 4) == p10);
    assert(p10 / 10 == d.pressure) by (nonlinear_arith)
        requires
            p10 == d.pressure * 10,
    ;
    assert(e[6] == d.humidity && e[7] == d.battery);
    assert(e[9] == d.interval % 256 && e[10] == d.interval / 256);
    assert(u16_le(e, 9) == d.interval);
    assert(e[11] == d.since_last_update % 256 && e[12] == d.since_last_update / 256);
    assert(u16_le(e, 11) == d.since_last_update);
}

/// Law: decoding a valid thirteen-byte buffer and encoding the record
/// again reproduces the buffer byte for byte, except that the pressure
/// bytes are rounded down to the record's whole-hectopascal precision.
pub proof fn lemma_measurement_round_trip(b: Seq<u8>)
    requires
        b.len() == PAYLOAD_LEN,
        status_of_wire(b[8]) is Some,
    ensures
        decode_spec(b) matches Ok(d) && {
            let e = encode_spec(d);
            &&& e.len() == PAYLOAD_LEN
            &&& forall|i: int| 0 <= i < PAYLOAD_LEN && i != 4 && i != 5 ==> e[i] == b[i]
            &&& u16_le(e, 4) == (u16_le(b, 4) / 10) * 10
        },
{
    let d = match decode_spec(b) {
        Ok(d) => d,
        Err(_) => arbitrary(),
    };
    let e = encode_spec(d);
    lemma_le_bytes_of_u16(b, 0);
    lemma_le_bytes_of_u16(b, 2);
    lemma_le_bytes_of_u16(b, 9);
    lemma_le_bytes_of_u16(b, 11);
    assert(d.pressure == u16_le(b, 4) / 10);
    assert(d.pressure <= 6553) by (nonlinear_arith)
        requires
            d.pressure == u16_le(b, 4) / 10,
            u16_le(b, 4) < 65536,
    ;
    let p10 = (d.pressure * 10) as u16;
    assert(p10 == d.pressure * 10);
    assert(p10 % 256 + (p10 / 256) * 256 == p10);
    assert(e[4] == p10 % 256 && e[5] == p10 / 256);
    assert(u16_le(e, 4) == p10) by (nonlinear_arith)
        requires
            e[4] == p10 % 256,
            e[5] == p10 / 256,
            u16_le(e, 4) == (e[4] + e[5] * 256) as u16,
            p10 < 65536,
    ;
    assert(wire_of_status(d.status) == b[8]);
    assert(e[0] == b[0] && e[1] == b[1]);
    assert(e[2] == b[2] && e[3] == b[3]);
    assert(e[6] == b[6] && e[7] == b[7] && e[8] == b[8]);
    assert(e[9] == b[9] && e[10] == b[10]);
    assert(e[11] == b[11] && e[12] == b[12]);
}

} // verus!
