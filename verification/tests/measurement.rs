use aranet4::errors::DecodeFault;
use aranet4::errors::DeviceError;
use aranet4::measurement::decode_measurement;
use aranet4::measurement::encode_measurement;
use aranet4::measurement::PAYLOAD_LEN;
use aranet4::status::Status;

fn known_buffer() -> Vec<u8> {
    vec![
        0xE8, 0x03, 0x80, 0x1B, 0x20, 0x03, 0x32, 0x64, 0x01, 0x3C, 0x00, 0x05, 0x00,
    ]
}

#[test]
fn decodes_known_buffer_exactly() {
    let data = decode_measurement(&known_buffer()).unwrap();
    assert_eq!(data.co2, 1000);
    assert_eq!(data.temperature, 7040);
    assert_eq!(data.temperature as f32 / 20.0, 352.0);
    assert_eq!(data.pressure, 80);
    assert_eq!(data.humidity, 50);
    assert_eq!(data.battery, 100);
    assert_eq!(data.status, Status::GREEN);
    assert_eq!(data.interval, 60);
    assert_eq!(data.since_last_update, 5);
}

#[test]
fn temperature_division_is_fractional_not_integer() {
    // 0x004B = 75 twentieths: 3.75 degrees, which integer division would lose.
    let mut buf = known_buffer();
    buf[2] = 0x4B;
    buf[3] = 0x00;
    let data = decode_measurement(&buf).unwrap();
    assert_eq!(data.temperature, 75);
    assert_eq!(data.temperature as f32 / 20.0, 3.75);
}

#[test]
fn pressure_uses_integer_division() {
    // Raw 0x0327 = 807 tenths of a hectopascal decodes to 80 hPa, not 81.
    let mut buf = known_buffer();
    buf[4] = 0x27;
    buf[5] = 0x03;
    let data = decode_measurement(&buf).unwrap();
    assert_eq!(data.pressure, 80);
}

#[test]
fn short_buffers_fail_with_io_error() {
    for len in 0..PAYLOAD_LEN {
        let buf = vec![0xFF; len];
        assert_eq!(
            decode_measurement(&buf),
            Err(DeviceError::IO(DecodeFault::ShortBuffer)),
            "length {len} must be rejected",
        );
    }
}

#[test]
fn exact_payload_length_is_accepted() {
    assert!(decode_measurement(&known_buffer()).is_ok());
}

#[test]
fn longer_buffers_decode_their_first_thirteen_bytes() {
    let mut buf = known_buffer();
    buf.push(0xAB);
    buf.push(0xCD);
    let data = decode_measurement(&buf).unwrap();
    assert_eq!(data.co2, 1000);
    assert_eq!(data.since_last_update, 5);
}

#[test]
fn invalid_status_bytes_fail_and_never_default_to_green() {
    for status in [0u8, 4, 255] {
        let mut buf = known_buffer();
        buf[8] = status;
        assert_eq!(
            decode_measurement(&buf),
            Err(DeviceError::IO(DecodeFault::InvalidStatus(status))),
            "status byte {status} must be rejected",
        );
    }
}

#[test]
fn all_three_status_values_decode() {
    for (byte, status) in [(1u8, Status::GREEN), (2, Status::AMBER), (3, Status::RED)] {
        let mut buf = known_buffer();
        buf[8] = byte;
        assert_eq!(decode_measurement(&buf).unwrap().status, status);
    }
}

#[test]
fn status_wire_round_trip() {
    for (byte, status) in [(1u8, Status::GREEN), (2, Status::AMBER), (3, Status::RED)] {
        assert_eq!(Status::from_wire(byte), Some(status));
        assert_eq!(status.to_wire(), byte);
    }
    for byte in [0u8, 4, 200, 255] {
        assert_eq!(Status::from_wire(byte), None);
    }
}

#[test]
fn encode_produces_exact_wire_bytes() {
    let data = decode_measurement(&known_buffer()).unwrap();
    assert_eq!(encode_measurement(&data), known_buffer());
}

#[test]
fn decode_then_encode_round_trips_whole_fields_exactly() {
    // Raw pressure 807 is not a multiple of ten: re-encoding rounds it down
    // to 800; every other byte comes back exactly.
    let mut buf = known_buffer();
    buf[4] = 0x27;
    buf[5] = 0x03;
    let data = decode_measurement(&buf).unwrap();
    let encoded = encode_measurement(&data);
    assert_eq!(encoded.len(), PAYLOAD_LEN);
    let mut expected = buf.clone();
    expected[4] = 0x20;
    expected[5] = 0x03;
    assert_eq!(encoded, expected);
    // The re-encoded buffer decodes to the same record.
    assert_eq!(decode_measurement(&encoded).unwrap(), data);
}
