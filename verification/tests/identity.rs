use aranet4::errors::DeviceError;
use aranet4::identity::identity_field_of;
use aranet4::identity::resolve_identity;
use aranet4::identity::strip_trailing_nuls;
use aranet4::identity::IdentityField;
use aranet4::uuids::FIRMWARE_REVISION_UUID;
use aranet4::uuids::HARDWARE_REVISION_UUID;
use aranet4::uuids::MANUFACTURER_NAME_UUID;
use aranet4::uuids::MODEL_NUMBER_UUID;
use aranet4::uuids::SERIAL_NUMBER_UUID;
use aranet4::uuids::SOFTWARE_REVISION_UUID;

fn all_six() -> Vec<(u128, Vec<u8>)> {
    vec![
        (MODEL_NUMBER_UUID, b"Aranet4\0".to_vec()),
        (SERIAL_NUMBER_UUID, b"1234567890".to_vec()),
        (FIRMWARE_REVISION_UUID, b"1.0\0".to_vec()),
        (HARDWARE_REVISION_UUID, b"rev2".to_vec()),
        (SOFTWARE_REVISION_UUID, b"0.9".to_vec()),
        (MANUFACTURER_NAME_UUID, b"Acme\0\0".to_vec()),
    ]
}

#[test]
fn resolves_all_six_fields_with_field_specific_stripping() {
    let info = resolve_identity(&all_six()).unwrap();
    // NUL-padded fields are stripped.
    assert_eq!(info.manufacturer_name, "Acme");
    assert_eq!(info.model_number, "Aranet4");
    // The revisions and the serial number are returned unmodified.
    assert_eq!(info.firmware_revision, "1.0\0");
    assert_eq!(info.serial_number, "1234567890");
    assert_eq!(info.hardware_revision, "rev2");
    assert_eq!(info.software_revision, "0.9");
}

#[test]
fn missing_serial_number_is_reported_by_name() {
    let attrs: Vec<(u128, Vec<u8>)> = all_six()
        .into_iter()
        .filter(|(uuid, _)| *uuid != SERIAL_NUMBER_UUID)
        .collect();
    let err = resolve_identity(&attrs).unwrap_err();
    assert_eq!(err, DeviceError::MissingAttribute(IdentityField::SerialNumber));
    match err {
        DeviceError::MissingAttribute(field) => assert_eq!(field.name(), "serial_number"),
        other => panic!("unexpected error {other:?}"),
    }
}

#[test]
fn each_missing_field_is_reported() {
    let cases = [
        (MODEL_NUMBER_UUID, IdentityField::ModelNumber),
        (SERIAL_NUMBER_UUID, IdentityField::SerialNumber),
        (FIRMWARE_REVISION_UUID, IdentityField::FirmwareRevision),
        (HARDWARE_REVISION_UUID, IdentityField::HardwareRevision),
        (SOFTWARE_REVISION_UUID, IdentityField::SoftwareRevision),
        (MANUFACTURER_NAME_UUID, IdentityField::ManufacturerName),
    ];
    for (uuid, field) in cases {
        let attrs: Vec<(u128, Vec<u8>)> =
            all_six().into_iter().filter(|(u, _)| *u != uuid).collect();
        assert_eq!(
            resolve_identity(&attrs),
            Err(DeviceError::MissingAttribute(field)),
        );
    }
}

#[test]
fn empty_attribute_list_reports_model_number_first() {
    let attrs: Vec<(u128, Vec<u8>)> = Vec::new();
    assert_eq!(
        resolve_identity(&attrs),
        Err(DeviceError::MissingAttribute(IdentityField::ModelNumber)),
    );
}

#[test]
fn invalid_utf8_fails_with_invalid_attribute() {
    let mut attrs = all_six();
    attrs[1].1 = vec![0xFF, 0xFE];
    assert_eq!(
        resolve_identity(&attrs),
        Err(DeviceError::InvalidAttribute(IdentityField::SerialNumber)),
    );
}

#[test]
fn invalid_utf8_hidden_under_nul_padding_is_stripped_first() {
    // The padding is stripped before the UTF-8 decode, so a value whose
    // only non-UTF-8 bytes are trailing NULs still fails: NUL is valid
    // UTF-8, while a stray 0xC3 continuation start is not.
    let mut attrs = all_six();
    attrs[5].1 = vec![0xC3, 0x00, 0x00];
    assert_eq!(
        resolve_identity(&attrs),
        Err(DeviceError::InvalidAttribute(IdentityField::ManufacturerName)),
    );
}

#[test]
fn unknown_characteristics_are_ignored() {
    let mut attrs = all_six();
    attrs.push((0xf0cd3001_95da_4f4b_9ac8_aa55d312af0c, vec![0xFF, 0xFE]));
    attrs.insert(0, (0xdead_beef, b"noise".to_vec()));
    let info = resolve_identity(&attrs).unwrap();
    assert_eq!(info.manufacturer_name, "Acme");
}

#[test]
fn duplicate_characteristic_takes_the_value_read_last() {
    let mut attrs = all_six();
    attrs.push((SERIAL_NUMBER_UUID, b"overridden".to_vec()));
    let info = resolve_identity(&attrs).unwrap();
    assert_eq!(info.serial_number, "overridden");
}

#[test]
fn registry_maps_each_uuid_to_its_field() {
    assert_eq!(identity_field_of(MODEL_NUMBER_UUID), Some(IdentityField::ModelNumber));
    assert_eq!(identity_field_of(SERIAL_NUMBER_UUID), Some(IdentityField::SerialNumber));
    assert_eq!(
        identity_field_of(FIRMWARE_REVISION_UUID),
        Some(IdentityField::FirmwareRevision),
    );
    assert_eq!(
        identity_field_of(HARDWARE_REVISION_UUID),
        Some(IdentityField::HardwareRevision),
    );
    assert_eq!(
        identity_field_of(SOFTWARE_REVISION_UUID),
        Some(IdentityField::SoftwareRevision),
    );
    assert_eq!(
        identity_field_of(MANUFACTURER_NAME_UUID),
        Some(IdentityField::ManufacturerName),
    );
    assert_eq!(identity_field_of(0x1234), None);
}

#[test]
fn field_names_match_their_diagnostic_spelling() {
    assert_eq!(IdentityField::ModelNumber.name(), "model_number");
    assert_eq!(IdentityField::SerialNumber.name(), "serial_number");
    assert_eq!(IdentityField::FirmwareRevision.name(), "firmware_revision");
    assert_eq!(IdentityField::HardwareRevision.name(), "hardware_revision");
    assert_eq!(IdentityField::SoftwareRevision.name(), "software_revision");
    assert_eq!(IdentityField::ManufacturerName.name(), "manufacturer_name");
}

#[test]
fn stripping_removes_only_trailing_nuls() {
    assert_eq!(strip_trailing_nuls(b"Acme\0\0".to_vec()), b"Acme".to_vec());
    assert_eq!(strip_trailing_nuls(b"A\0cme".to_vec()), b"A\0cme".to_vec());
    assert_eq!(strip_trailing_nuls(b"\0\0".to_vec()), Vec::<u8>::new());
    assert_eq!(strip_trailing_nuls(Vec::new()), Vec::<u8>::new());
    assert_eq!(strip_trailing_nuls(b"Acme".to_vec()), b"Acme".to_vec());
}
