//! The deserializer: versioned fields, arrays, enumerations, attachments,
//! downcast probing, and the decode error taxonomy.

use mhrice::decode::{decode_array, decode_object, decode_root, downcast};
use mhrice::error::{DecodeError, RegistryError};
use mhrice::registry::{ElemKind, EnumArm, EnumDesc, EnumWidth, FieldDesc, FieldKind, Registry,
    TypeDesc};
use mhrice::value::{AttachmentValue, EnumValue, ObjectValue, Value};

fn le32(v: u32, out: &mut Vec<u8>) {
    out.extend_from_slice(&v.to_le_bytes());
}

fn fd(kind: FieldKind) -> FieldDesc {
    FieldDesc { kind, min_version: 0 }
}

fn fd_v(kind: FieldKind, min_version: u32) -> FieldDesc {
    FieldDesc { kind, min_version }
}

fn atom(e: ElemKind) -> FieldKind {
    FieldKind::Atom(e)
}

/// A registry with one two-field type whose second field appears at
/// version 3, two probe types, and one enumeration of two sub-ranges.
fn fixture() -> Registry {
    let types = vec![
        TypeDesc {
            name: "test.TwoField",
            type_hash: 0x1234,
            declared_version: 3,
            fields: vec![fd(atom(ElemKind::U32)), fd_v(atom(ElemKind::U32), 3)],
        },
        // The "Foo" probe shape.
        TypeDesc {
            name: "test.Foo",
            type_hash: 0xAAAA,
            declared_version: 1,
            fields: vec![fd(atom(ElemKind::U16))],
        },
        // The "Bar" probe shape.
        TypeDesc {
            name: "test.Bar",
            type_hash: 0xBBBB,
            declared_version: 1,
            fields: vec![fd(atom(ElemKind::Bool))],
        },
        // A rich shape: string, counted array, fixed array, nested object.
        TypeDesc {
            name: "test.Rich",
            type_hash: 0xC0DE,
            declared_version: 1,
            fields: vec![
                fd(atom(ElemKind::Str)),
                fd(FieldKind::Array(ElemKind::U16)),
                fd(FieldKind::FixedArray(ElemKind::I8, 2)),
                fd(atom(ElemKind::Object)),
                fd(atom(ElemKind::Enum(0))),
            ],
        },
    ];
    let enums = vec![EnumDesc {
        width: EnumWidth::U32,
        arms: vec![EnumArm { first: 0, last: 9 }, EnumArm { first: 10, last: 19 }],
    }];
    Registry::build(types, enums).unwrap()
}

/// Stream bytes of the 0x1234 object: tag, then only the fields at or
/// below `version`.
fn bytes_1234(version: u32, field1: u32, field2: Option<u32>) -> Vec<u8> {
    let mut out = Vec::new();
    le32(0x1234, &mut out);
    le32(version, &mut out);
    le32(field1, &mut out);
    if let Some(v) = field2 {
        le32(v, &mut out);
    }
    out
}

#[test]
fn versioned_field_below_threshold_takes_default() {
    // Version 2 stream: field 2 (threshold 3) must hold the default, and
    // the stream carries no bytes for it.
    let reg = fixture();
    let v = decode_root(&reg, &bytes_1234(2, 77, None)).unwrap();
    assert_eq!(
        v,
        Value::Object(ObjectValue {
            type_hash: 0x1234,
            version: 2,
            fields: vec![Value::U32(77), Value::U32(0)],
        })
    );
}

#[test]
fn versioned_field_at_threshold_reads_stream() {
    let reg = fixture();
    let v = decode_root(&reg, &bytes_1234(3, 77, Some(88))).unwrap();
    assert_eq!(
        v,
        Value::Object(ObjectValue {
            type_hash: 0x1234,
            version: 3,
            fields: vec![Value::U32(77), Value::U32(88)],
        })
    );
}

#[test]
fn redecoding_the_same_bytes_yields_the_identical_graph() {
    let reg = fixture();
    let bytes = bytes_1234(3, 41, Some(42));
    let first = decode_root(&reg, &bytes).unwrap();
    let second = decode_root(&reg, &bytes).unwrap();
    assert_eq!(first, second);
}

#[test]
fn unknown_hash_is_a_registry_gap() {
    let reg = fixture();
    let mut out = Vec::new();
    le32(0x9999, &mut out);
    le32(1, &mut out);
    assert_eq!(decode_root(&reg, &out).unwrap_err(), DecodeError::UnknownType(0x9999));
}

#[test]
fn short_stream_is_truncated() {
    let reg = fixture();
    assert_eq!(decode_root(&reg, &[0x34, 0x12]).unwrap_err(), DecodeError::Truncated(0));
    // Tag present, first field cut short.
    let mut out = Vec::new();
    le32(0x1234, &mut out);
    le32(3, &mut out);
    out.push(7);
    // The first field's read begins at offset 8 and runs out.
    assert_eq!(decode_root(&reg, &out).unwrap_err(), DecodeError::Truncated(8));
}

#[test]
fn trailing_bytes_after_root_are_rejected() {
    let reg = fixture();
    let mut bytes = bytes_1234(2, 1, None);
    let consumed = bytes.len();
    bytes.push(0);
    // The unconsumed tail begins where the object ended.
    assert_eq!(
        decode_root(&reg, &bytes).unwrap_err(),
        DecodeError::InvalidField(consumed)
    );
}

#[test]
fn out_of_domain_bool_is_invalid_field() {
    let reg = fixture();
    let mut out = Vec::new();
    le32(0xBBBB, &mut out);
    le32(1, &mut out);
    out.push(2);
    // The offending byte sits just past the 8-byte tag.
    assert_eq!(decode_root(&reg, &out).unwrap_err(), DecodeError::InvalidField(8));
}

#[test]
fn enumeration_ranges_carry_offsets() {
    // Sub-ranges [0,10) and [10,20): raw 15 decodes to the second arm with
    // offset 5; raw 25 is contained nowhere.
    let reg = fixture();
    let mut out = Vec::new();
    le32(15, &mut out);
    let (vals, end) = decode_array(&reg, &out, 0, ElemKind::Enum(0), 1).unwrap();
    assert_eq!(end, 4);
    assert_eq!(vals, vec![Value::EnumV(EnumValue { arm: 1, offset: 5 })]);

    let mut out = Vec::new();
    le32(25, &mut out);
    assert_eq!(
        decode_array(&reg, &out, 0, ElemKind::Enum(0), 1).unwrap_err(),
        DecodeError::UnknownEnumValue(25, 0)
    );
}

#[test]
fn rich_object_round_trip() {
    let reg = fixture();
    let mut out = Vec::new();
    le32(0xC0DE, &mut out);
    le32(1, &mut out);
    // Str "hi"
    le32(2, &mut out);
    out.extend_from_slice(b"hi");
    // Array(U16) of three
    le32(3, &mut out);
    out.extend_from_slice(&[1, 0, 2, 0, 3, 0]);
    // FixedArray(I8, 2), no leading count
    out.push(0xFF);
    out.push(1);
    // nested object 0xAAAA version 1, one U16 field
    le32(0xAAAA, &mut out);
    le32(1, &mut out);
    out.extend_from_slice(&[0x2A, 0]);
    // enumeration raw value 3: arm 0, offset 3
    le32(3, &mut out);

    let v = decode_root(&reg, &out).unwrap();
    let expected = Value::Object(ObjectValue {
        type_hash: 0xC0DE,
        version: 1,
        fields: vec![
            Value::Str(b"hi".to_vec()),
            Value::List(vec![Value::U16(1), Value::U16(2), Value::U16(3)]),
            Value::List(vec![Value::I8(-1), Value::I8(1)]),
            Value::Object(ObjectValue {
                type_hash: 0xAAAA,
                version: 1,
                fields: vec![Value::U16(42)],
            }),
            Value::EnumV(EnumValue { arm: 0, offset: 3 }),
        ],
    });
    assert_eq!(v, expected);
    // Determinism again, on the rich shape.
    assert_eq!(decode_root(&reg, &out).unwrap(), expected);
}

#[test]
fn array_failure_has_no_partial_recovery() {
    let reg = fixture();
    let mut out = Vec::new();
    le32(0xC0DE, &mut out);
    le32(1, &mut out);
    le32(0, &mut out);
    // Array claims three elements, carries two.
    le32(3, &mut out);
    out.extend_from_slice(&[1, 0, 2, 0]);
    // The third element's read begins at offset 20 and runs out.
    assert_eq!(decode_root(&reg, &out).unwrap_err(), DecodeError::Truncated(20));
}

/// Payload bytes of an attachment holding a Foo (0xAAAA) object.
fn foo_attachment() -> AttachmentValue {
    let mut payload = Vec::new();
    le32(0xAAAA, &mut payload);
    le32(1, &mut payload);
    payload.extend_from_slice(&[0x2A, 0]);
    AttachmentValue { runtime_hash: 0xAAAA, payload }
}

#[test]
fn downcast_mismatch_is_no_match_not_an_error() {
    let reg = fixture();
    let att = foo_attachment();
    assert_eq!(downcast(&reg, &att, 0xBBBB).unwrap(), None);
}

#[test]
fn downcast_match_decodes_the_payload() {
    let reg = fixture();
    let att = foo_attachment();
    let got = downcast(&reg, &att, 0xAAAA).unwrap().unwrap();
    assert_eq!(
        got,
        Value::Object(ObjectValue {
            type_hash: 0xAAAA,
            version: 1,
            fields: vec![Value::U16(42)],
        })
    );
}

#[test]
fn downcast_probes_are_exclusive() {
    // Probing every registered hash yields at most one value.
    let reg = fixture();
    let att = foo_attachment();
    let mut matches = 0;
    for want in [0x1234u32, 0xAAAA, 0xBBBB, 0xC0DE] {
        if let Ok(Some(_)) = downcast(&reg, &att, want) {
            matches += 1;
        }
    }
    assert_eq!(matches, 1);
}

#[test]
fn attachments_decode_as_tagged_blobs() {
    let reg = fixture();
    let mut out = Vec::new();
    le32(0xFEED, &mut out);
    le32(3, &mut out);
    out.extend_from_slice(&[9, 8, 7]);
    let (vals, end) = decode_array(&reg, &out, 0, ElemKind::Attachment, 1).unwrap();
    assert_eq!(end, out.len());
    assert_eq!(
        vals,
        vec![Value::Attachment(AttachmentValue { runtime_hash: 0xFEED, payload: vec![9, 8, 7] })]
    );
}

#[test]
fn decode_object_reports_consumed_position() {
    let reg = fixture();
    let mut bytes = bytes_1234(3, 5, Some(6));
    let tail_start = bytes.len();
    bytes.extend_from_slice(&[0xEE; 4]);
    let (_, end) = decode_object(&reg, &bytes, 0).unwrap();
    assert_eq!(end, tail_start);
}

#[test]
fn duplicate_registration_is_rejected_eagerly() {
    let types = vec![
        TypeDesc { name: "test.A", type_hash: 7, declared_version: 1, fields: vec![] },
        TypeDesc { name: "test.B", type_hash: 7, declared_version: 2, fields: vec![] },
    ];
    assert_eq!(
        Registry::build(types, vec![]).unwrap_err(),
        RegistryError::DuplicateType(7)
    );
}

#[test]
fn overlapping_enumeration_arms_fail_fast() {
    let enums = vec![EnumDesc {
        width: EnumWidth::U32,
        arms: vec![EnumArm { first: 0, last: 10 }, EnumArm { first: 10, last: 19 }],
    }];
    assert_eq!(
        Registry::build(vec![], enums).unwrap_err(),
        RegistryError::OverlappingArms(0, 0, 1)
    );
}

#[test]
fn reversed_enumeration_arm_fails_fast() {
    let enums = vec![EnumDesc {
        width: EnumWidth::U8,
        arms: vec![EnumArm { first: 5, last: 2 }],
    }];
    assert_eq!(
        Registry::build(vec![], enums).unwrap_err(),
        RegistryError::InvalidArm(0, 0)
    );
}

#[test]
fn dangling_enumeration_reference_fails_fast() {
    let types = vec![TypeDesc {
        name: "test.DanglingEnum",
        type_hash: 1,
        declared_version: 0,
        fields: vec![fd(atom(ElemKind::Enum(3)))],
    }];
    assert_eq!(
        Registry::build(types, vec![]).unwrap_err(),
        RegistryError::UnknownEnumTable(0, 0)
    );
}
