//! Resolution of the device-identity record from characteristic values.
//!
//! The transport hands in the characteristics it observed on the connected
//! peripheral, each as a UUID and the raw bytes read from it. This module
//! matches them against the six standard identity characteristics, decodes
//! each value as UTF-8, strips the device's NUL padding from the two fields
//! that carry it, and assembles the full record — or reports exactly which
//! field was missing or invalid.

use vstd::prelude::*;
use crate::errors::DeviceError;
use crate::uuids::MODEL_NUMBER_UUID;
use crate::uuids::SERIAL_NUMBER_UUID;
use crate::uuids::FIRMWARE_REVISION_UUID;
use crate::uuids::HARDWARE_REVISION_UUID;
use crate::uuids::SOFTWARE_REVISION_UUID;
use crate::uuids::MANUFACTURER_NAME_UUID;

verus! {

/// The six standard identity characteristics of the device.
#[derive(Debug, PartialEq, Eq, Clone, Copy, Structural)]
pub enum IdentityField {
    ModelNumber,
    SerialNumber,
    FirmwareRevision,
    HardwareRevision,
    SoftwareRevision,
    ManufacturerName,
}

/// Information about the device.
#[derive(Debug, PartialEq, Eq, Clone)]
pub struct Info {
    /// The device's model number.
    pub model_number: String,
    /// The device's serial number.
    pub serial_number: String,
    /// The device's firmware revision.
    pub firmware_revision: String,
    /// The device's hardware revision.
    pub hardware_revision: String,
    /// The device's software revision.
    pub software_revision: String,
    /// The name of the device's manufacturer.
    pub manufacturer_name: String,
}

/// The identity field a characteristic UUID stands for, if any.
pub open spec fn field_of_uuid(u: u128) -> Option<IdentityField> {
    if u == MODEL_NUMBER_UUID {
        Some(IdentityField::ModelNumber)
    } else if u == SERIAL_NUMBER_UUID {
        Some(IdentityField::SerialNumber)
    } else if u == FIRMWARE_REVISION_UUID {
        Some(IdentityField::FirmwareRevision)
    } else if u == HARDWARE_REVISION_UUID {
        Some(IdentityField::HardwareRevision)
    } else if u == SOFTWARE_REVISION_UUID {
        Some(IdentityField::SoftwareRevision)
    } else if u == MANUFACTURER_NAME_UUID {
        Some(IdentityField::ManufacturerName)
    } else {
        None
    }
}

/// Look a characteristic UUID up in the identity registry.
pub fn identity_field_of(u: u128) -> (r: Option<IdentityField>)
    ensures
        r == field_of_uuid(u),
{
    if u == MODEL_NUMBER_UUID {
        Some(IdentityField::ModelNumber)
    } else if u == SERIAL_NUMBER_UUID {
        Some(IdentityField::SerialNumber)
    } else if u == FIRMWARE_REVISION_UUID {
        Some(IdentityField::FirmwareRevision)
    } else if u == HARDWARE_REVISION_UUID {
        Some(IdentityField::HardwareRevision)
    } else if u == SOFTWARE_REVISION_UUID {
        Some(IdentityField::SoftwareRevision)
    } else if u == MANUFACTURER_NAME_UUID {
        Some(IdentityField::ManufacturerName)
    } else {
        None
    }
}

/// Whether the device NUL-pads this field's characteristic, so that its
/// value is read with trailing NUL bytes stripped.
pub open spec fn strips_trailing_nuls(f: IdentityField) -> bool {
    f == IdentityField::ModelNumber || f == IdentityField::ManufacturerName
}

impl IdentityField {
    /// Whether this field's value is read with trailing NUL bytes stripped.
    pub fn strips_padding(&self) -> (r: bool)
        ensures
            r == strips_trailing_nuls(*self),
    {
        match self {
            IdentityField::ModelNumber => true,
            IdentityField::ManufacturerName => true,
            _ => false,
        }
    }

    /// The field's name, as error diagnostics refer to it.
    pub fn name(&self) -> (r: &'static str)
        ensures
            *self == IdentityField::ModelNumber ==> r@ == "model_number"@,
            *self == IdentityField::SerialNumber ==> r@ == "serial_number"@,
            *self == IdentityField::FirmwareRevision ==> r@ == "firmware_revision"@,
            *self == IdentityField::HardwareRevision ==> r@ == "hardware_revision"@,
            *self == IdentityField::SoftwareRevision ==> r@ == "software_revision"@,
            *self == IdentityField::ManufacturerName ==> r@ == "manufacturer_name"@,
    {
        match self {
            IdentityField::ModelNumber => "model_number",
            IdentityField::SerialNumber => "serial_number",
            IdentityField::FirmwareRevision => "firmware_revision",
            IdentityField::HardwareRevision => "hardware_revision",
            IdentityField::SoftwareRevision => "software_revision",
            IdentityField::ManufacturerName => "manufacturer_name",
        }
    }
}

/// The bytes with every trailing NUL byte removed.
pub open spec fn stripped(b: Seq<u8>) -> Seq<u8>
    decreases b.len(),
{
    if b.len() > 0 && b.last() == 0 {
        stripped(b.drop_last())
    } else {
        b
    }
}

/// Remove every trailing NUL byte.
pub fn strip_trailing_nuls(bytes: Vec<u8>) -> (r: Vec<u8>)
    ensures
        r@ == stripped(bytes@),
{
    let ghost orig = bytes@;
    let mut out = bytes;
    while out.len() > 0 && out[out.len() - 1] == 0
        invariant
            stripped(out@) == stripped(orig),
        decreases out@.len(),
    {
        out.pop();
    }
    out
}

/// What a characteristic's raw bytes contribute to a field: the bytes as
/// read, with trailing NUL padding stripped for the fields that carry it.
pub open spec fn payload_of(f: IdentityField, b: Seq<u8>) -> Seq<u8> {
    if strips_trailing_nuls(f) {
        stripped(b)
    } else {
        b
    }
}

/// The characters that `String::from_utf8` decodes a byte sequence to, or
/// nothing where the bytes are not valid UTF-8. The result is a function
/// of the bytes alone.
pub uninterp spec fn utf8_decode(b: Seq<u8>) -> Option<Seq<char>>;

/// Relies on String::from_utf8: it succeeds exactly on valid UTF-8 input,
/// and the resulting string is a function of the input bytes alone.
#[verifier::external_body]
fn decode_utf8(bytes: Vec<u8>) -> (r: Option<String>)
    ensures
        r matches Some(s) ==> utf8_decode(bytes@) == Some(s@),
        r is Some <==> utf8_decode(bytes@) is Some,
{
    String::from_utf8(bytes).ok()
}

/// The raw bytes the device offers for a field: the value of the last
/// observed characteristic whose UUID names that field.
pub open spec fn raw_value(attrs: Seq<(u128, Vec<u8>)>, f: IdentityField) -> Option<Seq<u8>>
    decreases attrs.len(),
{
    if attrs.len() == 0 {
        None
    } else if field_of_uuid(attrs.last().0) == Some(f) {
        Some(attrs.last().1@)
    } else {
        raw_value(attrs.drop_last(), f)
    }
}

/// The decoded characters of a field, after padding is stripped, or
/// nothing where the field is absent or its value is not UTF-8.
pub open spec fn field_chars(attrs: Seq<(u128, Vec<u8>)>, f: IdentityField) -> Option<Seq<char>> {
    match raw_value(attrs, f) {
        None => None,
        Some(b) => utf8_decode(payload_of(f, b)),
    }
}

/// Whether one observed characteristic decodes cleanly: either its UUID
/// names no identity field, or its payload is valid UTF-8.
pub open spec fn attr_ok(a: (u128, Vec<u8>)) -> bool {
    match field_of_uuid(a.0) {
        None => true,
        Some(f) => utf8_decode(payload_of(f, a.1@)) is Some,
    }
}

/// Whether every observed characteristic decodes cleanly.
pub open spec fn all_attrs_ok(attrs: Seq<(u128, Vec<u8>)>) -> bool {
    forall|i: int| 0 <= i < attrs.len() ==> attr_ok(#[trigger] attrs[i])
}

/// Whether each of the six identity fields was observed at least once.
pub open spec fn all_fields_present(attrs: Seq<(u128, Vec<u8>)>) -> bool {
    &&& raw_value(attrs, IdentityField::ModelNumber) is Some
    &&& raw_value(attrs, IdentityField::SerialNumber) is Some
    &&& raw_value(attrs, IdentityField::FirmwareRevision) is Some
    &&& raw_value(attrs, IdentityField::HardwareRevision) is Some
    &&& raw_value(attrs, IdentityField::SoftwareRevision) is Some
    &&& raw_value(attrs, IdentityField::ManufacturerName) is Some
}

/// The first absent field in the fixed order in which absence is reported.
pub open spec fn first_missing(attrs: Seq<(u128, Vec<u8>)>) -> Option<IdentityField> {
    if raw_value(attrs, IdentityField::ModelNumber) is None {
        Some(IdentityField::ModelNumber)
    } else if raw_value(attrs, IdentityField::SerialNumber) is None {
        Some(IdentityField::SerialNumber)
    } else if raw_value(attrs, IdentityField::FirmwareRevision) is None {
        Some(IdentityField::FirmwareRevision)
    } else if raw_value(attrs, IdentityField::HardwareRevision) is None {
        Some(IdentityField::HardwareRevision)
    } else if raw_value(attrs, IdentityField::SoftwareRevision) is None {
        Some(IdentityField::SoftwareRevision)
    } else if raw_value(attrs, IdentityField::ManufacturerName) is None {
        Some(IdentityField::ManufacturerName)
    } else {
        None
    }
}

proof fn lemma_raw_value_extend(attrs: Seq<(u128, Vec<u8>)>, i: int, f: IdentityField)
    requires
        0 <= i < attrs.len(),
    ensures
        raw_value(attrs.take(i + 1), f) == (if field_of_uuid(attrs[i].0) == Some(f) {
            Some(attrs[i].1@)
        } else {
            raw_value(attrs.take(i), f)
        }),
{
    assert(attrs.take(i + 1).drop_last() =~= attrs.take(i));
    assert(attrs.take(i + 1).last() == attrs[i]);
}

/// Assemble the identity record from the observed characteristics, each
/// given as its UUID and the raw bytes read from it, in the order the
/// device listed them.
///
/// The record is complete or the call fails: a field observed more than
/// once takes the value read last; a value that is not UTF-8 fails the
/// whole resolution, naming the field; and if any of the six fields was
/// never observed, the first missing one is named — a partial record is
/// never returned.
pub fn resolve_identity(attrs: &Vec<(u128, Vec<u8>)>) -> (r: Result<Info, DeviceError>)
    ensures
        r is Ok <==> all_attrs_ok(attrs@) && all_fields_present(attrs@),
        r matches Ok(info) ==> {
            &&& field_chars(attrs@, IdentityField::ModelNumber) == Some(info.model_number@)
            &&& field_chars(attrs@, IdentityField::SerialNumber) == Some(info.serial_number@)
            &&& field_chars(attrs@, IdentityField::FirmwareRevision) == Some(info.firmware_revision@)
            &&& field_chars(attrs@, IdentityField::HardwareRevision) == Some(info.hardware_revision@)
            &&& field_chars(attrs@, IdentityField::SoftwareRevision) == Some(info.software_revision@)
            &&& field_chars(attrs@, IdentityField::ManufacturerName) == Some(info.manufacturer_name@)
        },
        r matches Err(e) ==> match e {
            DeviceError::MissingAttribute(f) => all_attrs_ok(attrs@) && first_missing(attrs@) == Some(f),
            DeviceError::InvalidAttribute(f) => exists|i: int|
                #![trigger attrs@[i]]
                0 <= i < attrs@.len()
                && field_of_uuid(attrs@[i].0) == Some(f)
                && utf8_decode(payload_of(f, attrs@[i].1@)) is None
                && (forall|j: int| 0 <= j < i ==> attr_ok(#[trigger] attrs@[j])),
            _ => false,
        },
        all_attrs_ok(attrs@)
            && raw_value(attrs@, IdentityField::ModelNumber) is Some
            && raw_value(attrs@, IdentityField::SerialNumber) is None
            ==> r == Err::<Info, DeviceError>(DeviceError::MissingAttribute(IdentityField::SerialNumber)),
{
    let mut model_number: Option<String> = None;
    let mut serial_number: Option<String> = None;
    let mut firmware_revision: Option<String> = None;
    let mut hardware_revision: Option<String> = None;
    let mut software_revision: Option<String> = None;
    let mut manufacturer_name: Option<String> = None;

    let mut i: usize = 0;
    while i < attrs.len()
        invariant
            0 <= i <= attrs@.len(),
            forall|j: int| 0 <= j < i ==> attr_ok(#[trigger] attrs@[j]),
            match model_number {
                None => raw_value(attrs@.take(i as int), IdentityField::ModelNumber) is None,
                Some(s) => field_chars(attrs@.take(i as int), IdentityField::ModelNumber) == Some(s@),
            },
            match serial_number {
                None => raw_value(attrs@.take(i as int), IdentityField::SerialNumber) is None,
                Some(s) => field_chars(attrs@.take(i as int), IdentityField::SerialNumber) == Some(s@),
            },
            match firmware_revision {
                None => raw_value(attrs@.take(i as int), IdentityField::FirmwareRevision) is None,
                Some(s) => field_chars(attrs@.take(i as int), IdentityField::FirmwareRevision) == Some(s@),
            },
            match hardware_revision {
                None => raw_value(attrs@.take(i as int), IdentityField::HardwareRevision) is None,
                Some(s) => field_chars(attrs@.take(i as int), IdentityField::HardwareRevision) == Some(s@),
            },
            match software_revision {
                None => raw_value(attrs@.take(i as int), IdentityField::SoftwareRevision) is None,
                Some(s) => field_chars(attrs@.take(i as int), IdentityField::SoftwareRevision) == Some(s@),
            },
            match manufacturer_name {
                None => raw_value(attrs@.take(i as int), IdentityField::ManufacturerName) is None,
                Some(s) => field_chars(attrs@.take(i as int), IdentityField::ManufacturerName) == Some(s@),
            },
        decreases attrs@.len() - i,
    {
        let uuid = attrs[i].0;
        match identity_field_of(uuid) {
            None => {
                proof {
                    lemma_raw_value_extend(attrs@, i as int, IdentityField::ModelNumber);
                    lemma_raw_value_extend(attrs@, i as int, IdentityField::SerialNumber);
                    lemma_raw_value_extend(attrs@, i as int, IdentityField::FirmwareRevision);
                    lemma_raw_value_extend(attrs@, i as int, IdentityField::HardwareRevision);
                    lemma_raw_value_extend(attrs@, i as int, IdentityField::SoftwareRevision);
                    lemma_raw_value_extend(attrs@, i as int, IdentityField::ManufacturerName);
                }
            },
            Some(f) => {
                let bytes = attrs[i].1.clone();
                proof {
                    assert forall|k: int| 0 <= k < bytes@.len() implies bytes@[k] == attrs@[i as int].1@[k] by {
                        assert(cloned::<u8>(attrs@[i as int].1@[k], bytes@[k]));
                    }
                    assert(bytes@ =~= attrs@[i as int].1@);
                }
                let payload = if f.strips_padding() {
                    strip_trailing_nuls(bytes)
                } else {
                    bytes
                };
                assert(payload@ == payload_of(f, attrs@[i as int].1@));
                match decode_utf8(payload) {
                    None => {
                        return Err(DeviceError::InvalidAttribute(f));
                    },
                    Some(s) => {
                        proof {
                            lemma_raw_value_extend(attrs@, i as int, IdentityField::ModelNumber);
                            lemma_raw_value_extend(attrs@, i as int, IdentityField::SerialNumber);
                            lemma_raw_value_extend(attrs@, i as int, IdentityField::FirmwareRevision);
                            lemma_raw_value_extend(attrs@, i as int, IdentityField::HardwareRevision);
                            lemma_raw_value_extend(attrs@, i as int, IdentityField::SoftwareRevision);
                            lemma_raw_value_extend(attrs@, i as int, IdentityField::ManufacturerName);
                        }
                        match f {
                            IdentityField::ModelNumber => { model_number = Some(s); },
                            IdentityField::SerialNumber => { serial_number = Some(s); },
                            IdentityField::FirmwareRevision => { firmware_revision = Some(s); },
                            IdentityField::HardwareRevision => { hardware_revision = Some(s); },
                            IdentityField::SoftwareRevision => { software_revision = Some(s); },
                            IdentityField::ManufacturerName => { manufacturer_name = Some(s); },
                        }
                    },
                }
            },
        }
        i = i + 1;
    }
    proof {
        assert(attrs@.take(attrs@.len() as int) =~= attrs@);
    }

    let model_number = match model_number {
        Some(s) => s,
        None => {
            return Err(DeviceError::MissingAttribute(IdentityField::ModelNumber));
        },
    };
    let serial_number = match serial_number {
        Some(s) => s,
        None => {
            return Err(DeviceError::MissingAttribute(IdentityField::SerialNumber));
        },
    };
    let firmware_revision = match firmware_revision {
        Some(s) => s,
        None => {
            return Err(DeviceError::MissingAttribute(IdentityField::FirmwareRevision));
        },
    };
    let hardware_revision = match hardware_revision {
        Some(s) => s,
        None => {
            return Err(DeviceError::MissingAttribute(IdentityField::HardwareRevision));
        },
    };
    let software_revision = match software_revision {
        Some(s) => s,
        None => {
            return Err(DeviceError::MissingAttribute(IdentityField::SoftwareRevision));
        },
    };
    let manufacturer_name = match manufacturer_name {
        Some(s) => s,
        None => {
            return Err(DeviceError::MissingAttribute(IdentityField::ManufacturerName));
        },
    };

    Ok(Info {
        model_number,
        serial_number,
        firmware_revision,
        hardware_revision,
        software_revision,
        manufacturer_name,
    })
}

} // verus!
