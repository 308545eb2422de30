//! The shipped declarations: registry assembly, armor identifiers, asset
//! paths, and end-to-end decoding of declared records.

use mhrice::archive::Store;
use mhrice::armor_id::PlArmorId;
use mhrice::decode::decode_root;
use mhrice::{exactly_one, SelectError};
use mhrice::hash::path_hash;
use mhrice::paths::{gen_em_collider_path, gen_ems_collider_path};
use mhrice::records::sample_registry;
use mhrice::value::{EnumValue, ObjectValue, Value};

fn le32(v: u32, out: &mut Vec<u8>) {
    out.extend_from_slice(&v.to_le_bytes());
}

#[test]
fn sample_registry_builds() {
    assert!(sample_registry().is_ok());
}

#[test]
fn collider_paths_are_zero_padded() {
    assert_eq!(
        gen_em_collider_path(42, 5),
        b"enemy/em042/05/collision/em042_05_colliders.rcol".to_vec()
    );
    assert_eq!(
        gen_em_collider_path(0, 0),
        b"enemy/em000/00/collision/em000_00_colliders.rcol".to_vec()
    );
    assert_eq!(
        gen_ems_collider_path(123, 45),
        b"enemy/ems123/45/collision/ems123_45_colliders.rcol".to_vec()
    );
}

#[test]
fn armor_ids_decode_by_sub_range() {
    assert_eq!(PlArmorId::from_raw(0), Some(PlArmorId::TableNone));
    assert_eq!(PlArmorId::from_raw(0x0C000000), Some(PlArmorId::Absent));
    assert_eq!(PlArmorId::from_raw(0x0000FFFF), Some(PlArmorId::NoneForPlEquipPack));
    assert_eq!(PlArmorId::from_raw(0x00010001), Some(PlArmorId::ChangedEx));
    assert_eq!(PlArmorId::from_raw(0x0C100007), Some(PlArmorId::Head(7)));
    assert_eq!(PlArmorId::from_raw(0x0C20FFFF), Some(PlArmorId::Chest(0xFFFF)));
    assert_eq!(PlArmorId::from_raw(0x0C300000), Some(PlArmorId::Arm(0)));
    assert_eq!(PlArmorId::from_raw(0x0C400001), Some(PlArmorId::Waist(1)));
    assert_eq!(PlArmorId::from_raw(0x0C500002), Some(PlArmorId::Leg(2)));
    assert_eq!(PlArmorId::from_raw(0x0C600000), None);
}

#[test]
fn icon_indices_follow_slots() {
    assert_eq!(PlArmorId::Head(3).icon_index(), 0);
    assert_eq!(PlArmorId::Chest(3).icon_index(), 1);
    assert_eq!(PlArmorId::Arm(3).icon_index(), 2);
    assert_eq!(PlArmorId::Waist(3).icon_index(), 3);
    assert_eq!(PlArmorId::Leg(3).icon_index(), 4);
    assert_eq!(PlArmorId::TableNone.icon_index(), 6);
    assert_eq!(PlArmorId::ChangedEx.icon_index(), 6);
}

#[test]
fn exactly_one_distinguishes_cardinalities() {
    assert_eq!(exactly_one(Vec::<u32>::new()), Err(SelectError::Empty));
    assert_eq!(exactly_one(vec![5u32]), Ok(5));
    assert_eq!(exactly_one(vec![5u32, 6]), Err(SelectError::Ambiguous));
}

/// Bytes of one armor series record: series -3, difficulty group 1 (upper),
/// collaboration flag set, indexes 9 and 2, equipable by both.
fn armor_series_param_bytes(out: &mut Vec<u8>) {
    le32(0xbf2780d1, out);
    le32(100002, out);
    le32(0xFFFFFFFD, out); // armor_series: -3
    le32(1, out); // difficulty group: upper
    out.push(1); // is_collabo
    le32(9, out); // index
    le32(2, out); // overwear sort index
    le32(2, out); // sexual_enable: both
}

#[test]
fn armor_series_table_decodes_through_the_declarations() {
    let reg = sample_registry().unwrap();
    let mut out = Vec::new();
    le32(0x45342000, &mut out);
    le32(0, &mut out);
    le32(1, &mut out); // one record in the table
    armor_series_param_bytes(&mut out);

    let v = decode_root(&reg, &out).unwrap();
    let expected = Value::Object(ObjectValue {
        type_hash: 0x45342000,
        version: 0,
        fields: vec![Value::List(vec![Value::Object(ObjectValue {
            type_hash: 0xbf2780d1,
            version: 100002,
            fields: vec![
                Value::I32(-3),
                Value::EnumV(EnumValue { arm: 1, offset: 0 }),
                Value::Bool(true),
                Value::U32(9),
                Value::U32(2),
                Value::EnumV(EnumValue { arm: 2, offset: 0 }),
            ],
        })])],
    });
    assert_eq!(v, expected);
}

#[test]
fn custom_buildup_decodes_under_either_release_hash() {
    let reg = sample_registry().unwrap();
    for (hash, version) in [(0x694F7865u32, 130000u32), (0x6766A8A7, 110001)] {
        let mut out = Vec::new();
        le32(hash, &mut out);
        le32(version, &mut out);
        out.extend_from_slice(&[0x34, 0x12]); // id: u16
        le32(2, &mut out); // value_index
        le32(0x55, &mut out); // skill_id
        let v = decode_root(&reg, &out).unwrap();
        assert_eq!(
            v,
            Value::Object(ObjectValue {
                type_hash: hash,
                version,
                fields: vec![Value::U16(0x1234), Value::U32(2), Value::U32(0x55)],
            })
        );
    }
}

/// Bytes of one add-on grant record common to every release: identifier,
/// save-link content, an empty weapon list, one armor identifier, and
/// empty talisman and layered lists.
fn add_data_info_common(out: &mut Vec<u8>) {
    le32(0xFFFFFFFF, out); // dlc_id: -1
    le32(2, out); // slc_id raw 2
    le32(0, out); // pl_weapon_list: empty
    le32(1, out); // pl_armor_list: one entry
    le32(0x0C100005, out); // a head piece, offset 5
    le32(0, out); // pl_talisman_list: empty
    le32(0, out); // pl_overwear_id_list: empty
    le32(0, out); // ot_overwear_id_list: empty
}

#[test]
fn add_data_info_versioned_list_defaults_below_threshold() {
    // Under the release tagged 110001 the layered weapon list (threshold
    // 120000) is absent from the stream and decodes to its default.
    let reg = sample_registry().unwrap();
    let mut out = Vec::new();
    le32(0xFD14730E, &mut out);
    le32(110001, &mut out);
    add_data_info_common(&mut out);

    let v = decode_root(&reg, &out).unwrap();
    if let Value::Object(ov) = &v {
        assert_eq!(ov.fields.len(), 8);
        assert_eq!(ov.fields[0], Value::I32(-1));
        assert_eq!(ov.fields[1], Value::EnumV(EnumValue { arm: 2, offset: 0 }));
        assert_eq!(
            ov.fields[3],
            Value::List(vec![Value::EnumV(EnumValue { arm: 4, offset: 5 })])
        );
        assert_eq!(ov.fields[7], Value::List(vec![]));
    } else {
        panic!("expected an object");
    }
}

#[test]
fn add_data_info_versioned_list_reads_at_threshold() {
    let reg = sample_registry().unwrap();
    let mut out = Vec::new();
    le32(0x377D23C5, &mut out);
    le32(120000, &mut out);
    add_data_info_common(&mut out);
    le32(2, &mut out); // layered weapon list: two entries
    le32(70, &mut out);
    le32(71, &mut out);

    let v = decode_root(&reg, &out).unwrap();
    if let Value::Object(ov) = &v {
        assert_eq!(ov.fields[7], Value::List(vec![Value::U32(70), Value::U32(71)]));
    } else {
        panic!("expected an object");
    }
}

#[test]
fn dlc_data_strings_decode() {
    let reg = sample_registry().unwrap();
    let mut out = Vec::new();
    le32(0x7397A135, &mut out);
    le32(100002, &mut out);
    le32(4, &mut out); // dlc_id
    le32(5, &mut out);
    out.extend_from_slice(b"Pack1"); // name
    le32(1, &mut out); // recv_type raw 1
    le32(0, &mut out); // sort_category
    le32(3, &mut out);
    out.extend_from_slice(b"T_4"); // title_msg_id
    le32(3, &mut out);
    out.extend_from_slice(b"E_4"); // explain_msg_id
    out.push(0); // is_common
    le32(7, &mut out); // sort_id
    out.push(1); // is_need_mr
    le32(14, &mut out); // need_ver

    let v = decode_root(&reg, &out).unwrap();
    assert_eq!(
        v,
        Value::Object(ObjectValue {
            type_hash: 0x7397A135,
            version: 100002,
            fields: vec![
                Value::I32(4),
                Value::Str(b"Pack1".to_vec()),
                Value::EnumV(EnumValue { arm: 1, offset: 0 }),
                Value::I32(0),
                Value::Str(b"T_4".to_vec()),
                Value::Str(b"E_4".to_vec()),
                Value::Bool(false),
                Value::I32(7),
                Value::Bool(true),
                Value::I32(14),
            ],
        })
    );
}

#[test]
fn stored_table_reads_back_from_a_container() {
    // The armor series table as an asset: found by its logical path,
    // extracted, decoded — the end-to-end pipeline of the consumer API.
    let reg = sample_registry().unwrap();
    let mut asset = Vec::new();
    le32(0x45342000, &mut asset);
    le32(0, &mut asset);
    le32(1, &mut asset);
    armor_series_param_bytes(&mut asset);
    let path: &[u8] = b"data/Define/Player/Armor/ArmorSeriesData.user";

    let mut data = Vec::new();
    le32(1, &mut data);
    le32(path_hash(path), &mut data);
    le32(17, &mut data); // directory is 4 + 13 bytes long
    le32(asset.len() as u32, &mut data);
    data.push(0);
    data.extend_from_slice(&asset);

    let store = Store::open_container(data).unwrap();
    let id = store.find(path).unwrap();
    let bytes = store.read(id).unwrap();
    let v = decode_root(&reg, &bytes).unwrap();
    if let Value::Object(ov) = v {
        assert_eq!(ov.type_hash, 0x45342000);
        assert_eq!(ov.fields.len(), 1);
    } else {
        panic!("expected an object");
    }
}

#[test]
fn float_fields_decode_to_raw_bits() {
    let reg = sample_registry().unwrap();
    let mut out = Vec::new();
    le32(0x51000001, &mut out); // stock parameters
    le32(0, &mut out);
    let limits = [1.0f32, 0.25, 300.0, -2.5, 0.0];
    for f in limits {
        le32(f.to_bits(), &mut out);
    }
    let v = decode_root(&reg, &out).unwrap();
    let ov = v.as_object().expect("a record");
    assert_eq!(ov.fields.len(), 5);
    for (field, f) in ov.fields.iter().zip(limits) {
        match field {
            Value::F32Bits(bits) => assert_eq!(f32::from_bits(*bits), f),
            other => panic!("expected raw float bits, got {:?}", other),
        }
    }
}

#[test]
fn full_condition_block_decodes() {
    // Twenty nested parameter records, then twenty usage flags.
    let reg = sample_registry().unwrap();
    let mut out = Vec::new();
    le32(0x51000008, &mut out);
    le32(0, &mut out);
    for i in 0..20u32 {
        le32(0x51000001, &mut out); // each nested record: stock parameters
        le32(0, &mut out);
        for j in 0..5u32 {
            le32(i * 8 + j, &mut out);
        }
    }
    for i in 0..20u8 {
        out.push(i % 2);
    }
    let v = decode_root(&reg, &out).unwrap();
    let ov = v.as_object().expect("a record");
    assert_eq!(ov.fields.len(), 40);
    let third = ov.fields[2].as_object().expect("a nested record");
    assert_eq!(third.type_hash, 0x51000001);
    assert_eq!(third.fields[4], Value::F32Bits(20));
    assert_eq!(ov.fields[21], Value::EnumV(EnumValue { arm: 1, offset: 0 }));
}

#[test]
fn registered_names_resolve_from_hashes() {
    let reg = sample_registry().unwrap();
    assert_eq!(reg.name_of(0x68d0776c), Some("snow.data.ArmorBaseUserData.Param"));
    assert_eq!(reg.name_of(0x7397A135), Some("snow.DlcData"));
    assert_eq!(reg.name_of(0x6883ECE4), Some("snow.DlcData"));
    assert_eq!(reg.name_of(0xDEAD0000), None);
}
