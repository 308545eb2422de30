//! A representative set of record and enumeration declarations.
//!
//! The full catalog of per-record declarations is data, not design: each
//! entry here is one declarative registration — a type hash (or one hash
//! per engine release for a type whose layout changed), a declared version,
//! and the field layout — interpreted by the registry and the deserializer.
//! A logical type that shipped in several releases is registered once per
//! release hash, all sharing one field list whose per-field thresholds pick
//! what each release's streams carry.
//!
//! Identifier-like fields whose own enumerations are not declared here
//! (item, skill, weapon and monster identifiers, rarity) are carried as
//! plain integers. The condition-parameter records carry registry-local
//! type hashes in the `0x51xxxxxx` range.

use crate::error::RegistryError;
use crate::registry::{enum_wf, ElemKind, EnumArm, EnumDesc, EnumDescV, EnumWidth, FieldDesc,
    FieldKind, Registry, TypeDesc, TypeDescV};
use vstd::prelude::*;

verus! {

/// The enumeration table slot of `pl_armor_id_enum`.
pub const ENUM_PL_ARMOR_ID: usize = 0;

/// The enumeration table slot of `sexual_equipable_flag_enum`.
pub const ENUM_SEXUAL_EQUIPABLE_FLAG: usize = 1;

/// The enumeration table slot of `equip_difficulty_group_enum`.
pub const ENUM_EQUIP_DIFFICULTY_GROUP: usize = 2;

/// The enumeration table slot of `pl_overwear_id_enum`.
pub const ENUM_PL_OVERWEAR_ID: usize = 3;

/// The enumeration table slot of `equipment_inventory_id_types_enum`.
pub const ENUM_EQUIPMENT_INVENTORY_ID_TYPES: usize = 4;

/// The enumeration table slot of `save_link_contents_enum`.
pub const ENUM_SAVE_LINK_CONTENTS: usize = 5;

/// The enumeration table slot of `recv_type_enum`.
pub const ENUM_RECV_TYPE: usize = 6;

/// The enumeration table slot of `use_data_type_enum`.
pub const ENUM_USE_DATA_TYPE: usize = 7;

/// The enumeration table slot of `condition_damage_used_enum`.
pub const ENUM_CONDITION_DAMAGE_USED: usize = 8;

pub open spec fn spec_pl_armor_id_enum() -> EnumDescV {
    EnumDescV {
        width: EnumWidth::U32,
        arms: seq![
            EnumArm { first: 0x0u64, last: 0x0u64 },
            EnumArm { first: 0xc000000u64, last: 0xc000000u64 },
            EnumArm { first: 0xffffu64, last: 0xffffu64 },
            EnumArm { first: 0x10001u64, last: 0x10001u64 },
            EnumArm { first: 0xc100000u64, last: 0xc10ffffu64 },
            EnumArm { first: 0xc200000u64, last: 0xc20ffffu64 },
            EnumArm { first: 0xc300000u64, last: 0xc30ffffu64 },
            EnumArm { first: 0xc400000u64, last: 0xc40ffffu64 },
            EnumArm { first: 0xc500000u64, last: 0xc50ffffu64 }
        ],
    }
}

/// Armor piece identifiers: reserved singletons, then one sub-range per slot
/// (head, chest, arm, waist, leg), each carrying the piece index as its
/// offset.
pub fn pl_armor_id_enum() -> (r: EnumDesc)
    ensures
        r@ == spec_pl_armor_id_enum(),
        enum_wf(r@),
{
    let mut arms: Vec<EnumArm> = Vec::new();

    arms.push(EnumArm { first: 0x0, last: 0x0 });
    arms.push(EnumArm { first: 0xc000000, last: 0xc000000 });
    arms.push(EnumArm { first: 0xffff, last: 0xffff });
    arms.push(EnumArm { first: 0x10001, last: 0x10001 });
    arms.push(EnumArm { first: 0xc100000, last: 0xc10ffff });
    arms.push(EnumArm { first: 0xc200000, last: 0xc20ffff });
    arms.push(EnumArm { first: 0xc300000, last: 0xc30ffff });
    arms.push(EnumArm { first: 0xc400000, last: 0xc40ffff });
    arms.push(EnumArm { first: 0xc500000, last: 0xc50ffff });
    proof {
        assert(arms@ =~= spec_pl_armor_id_enum().arms);
    }
    EnumDesc { width: EnumWidth::U32, arms }
}

pub open spec fn spec_sexual_equipable_flag_enum() -> EnumDescV {
    EnumDescV {
        width: EnumWidth::U32,
        arms: seq![
            EnumArm { first: 0x0u64, last: 0x0u64 },
            EnumArm { first: 0x1u64, last: 0x1u64 },
            EnumArm { first: 0x2u64, last: 0x2u64 }
        ],
    }
}

/// Who may equip a piece: male only, female only, both.
pub fn sexual_equipable_flag_enum() -> (r: EnumDesc)
    ensures
        r@ == spec_sexual_equipable_flag_enum(),
        enum_wf(r@),
{
    let mut arms: Vec<EnumArm> = Vec::new();

    arms.push(EnumArm { first: 0x0, last: 0x0 });
    arms.push(EnumArm { first: 0x1, last: 0x1 });
    arms.push(EnumArm { first: 0x2, last: 0x2 });
    proof {
        assert(arms@ =~= spec_sexual_equipable_flag_enum().arms);
    }
    EnumDesc { width: EnumWidth::U32, arms }
}

pub open spec fn spec_equip_difficulty_group_enum() -> EnumDescV {
    EnumDescV {
        width: EnumWidth::U32,
        arms: seq![
            EnumArm { first: 0x0u64, last: 0x0u64 },
            EnumArm { first: 0x1u64, last: 0x1u64 },
            EnumArm { first: 0x2u64, last: 0x2u64 }
        ],
    }
}

/// The progression tier of an armor series: lower, upper, master.
pub fn equip_difficulty_group_enum() -> (r: EnumDesc)
    ensures
        r@ == spec_equip_difficulty_group_enum(),
        enum_wf(r@),
{
    let mut arms: Vec<EnumArm> = Vec::new();

    arms.push(EnumArm { first: 0x0, last: 0x0 });
    arms.push(EnumArm { first: 0x1, last: 0x1 });
    arms.push(EnumArm { first: 0x2, last: 0x2 });
    proof {
        assert(arms@ =~= spec_equip_difficulty_group_enum().arms);
    }
    EnumDesc { width: EnumWidth::U32, arms }
}

pub open spec fn spec_pl_overwear_id_enum() -> EnumDescV {
    EnumDescV {
        width: EnumWidth::U32,
        arms: seq![
            EnumArm { first: 0x0u64, last: 0xfffu64 },
            EnumArm { first: 0x1000u64, last: 0x1fffu64 },
            EnumArm { first: 0x2000u64, last: 0x2fffu64 },
            EnumArm { first: 0x3000u64, last: 0x3fffu64 },
            EnumArm { first: 0x4000u64, last: 0x4fffu64 }
        ],
    }
}

/// Layered-armor identifiers: one sub-range per slot.
pub fn pl_overwear_id_enum() -> (r: EnumDesc)
    ensures
        r@ == spec_pl_overwear_id_enum(),
        enum_wf(r@),
{
    let mut arms: Vec<EnumArm> = Vec::new();

    arms.push(EnumArm { first: 0x0, last: 0xfff });
    arms.push(EnumArm { first: 0x1000, last: 0x1fff });
    arms.push(EnumArm { first: 0x2000, last: 0x2fff });
    arms.push(EnumArm { first: 0x3000, last: 0x3fff });
    arms.push(EnumArm { first: 0x4000, last: 0x4fff });
    proof {
        assert(arms@ =~= spec_pl_overwear_id_enum().arms);
    }
    EnumDesc { width: EnumWidth::U32, arms }
}

pub open spec fn spec_equipment_inventory_id_types_enum() -> EnumDescV {
    EnumDescV {
        width: EnumWidth::U32,
        arms: seq![
            EnumArm { first: 0x0u64, last: 0x0u64 },
            EnumArm { first: 0x1u64, last: 0x1u64 },
            EnumArm { first: 0x2u64, last: 0x2u64 },
            EnumArm { first: 0x3u64, last: 0x3u64 },
            EnumArm { first: 0x4u64, last: 0x4u64 }
        ],
    }
}

/// What an inventory slot holds: empty, weapon, armor, talisman, buff cage.
pub fn equipment_inventory_id_types_enum() -> (r: EnumDesc)
    ensures
        r@ == spec_equipment_inventory_id_types_enum(),
        enum_wf(r@),
{
    let mut arms: Vec<EnumArm> = Vec::new();

    arms.push(EnumArm { first: 0x0, last: 0x0 });
    arms.push(EnumArm { first: 0x1, last: 0x1 });
    arms.push(EnumArm { first: 0x2, last: 0x2 });
    arms.push(EnumArm { first: 0x3, last: 0x3 });
    arms.push(EnumArm { first: 0x4, last: 0x4 });
    proof {
        assert(arms@ =~= spec_equipment_inventory_id_types_enum().arms);
    }
    EnumDesc { width: EnumWidth::U32, arms }
}

pub open spec fn spec_save_link_contents_enum() -> EnumDescV {
    EnumDescV {
        width: EnumWidth::U32,
        arms: seq![
            EnumArm { first: 0x0u64, last: 0x0u64 },
            EnumArm { first: 0x1u64, last: 0x1u64 },
            EnumArm { first: 0x2u64, last: 0x2u64 },
            EnumArm { first: 0x3u64, last: 0x3u64 },
            EnumArm { first: 0x4u64, last: 0x4u64 },
            EnumArm { first: 0x5u64, last: 0x5u64 },
            EnumArm { first: 0x6u64, last: 0x6u64 }
        ],
    }
}

/// Save-link content identifiers of bonus grants.
pub fn save_link_contents_enum() -> (r: EnumDesc)
    ensures
        r@ == spec_save_link_contents_enum(),
        enum_wf(r@),
{
    let mut arms: Vec<EnumArm> = Vec::new();

    arms.push(EnumArm { first: 0x0, last: 0x0 });
    arms.push(EnumArm { first: 0x1, last: 0x1 });
    arms.push(EnumArm { first: 0x2, last: 0x2 });
    arms.push(EnumArm { first: 0x3, last: 0x3 });
    arms.push(EnumArm { first: 0x4, last: 0x4 });
    arms.push(EnumArm { first: 0x5, last: 0x5 });
    arms.push(EnumArm { first: 0x6, last: 0x6 });
    proof {
        assert(arms@ =~= spec_save_link_contents_enum().arms);
    }
    EnumDesc { width: EnumWidth::U32, arms }
}

pub open spec fn spec_recv_type_enum() -> EnumDescV {
    EnumDescV {
        width: EnumWidth::U32,
        arms: seq![
            EnumArm { first: 0x0u64, last: 0x0u64 },
            EnumArm { first: 0x1u64, last: 0x1u64 },
            EnumArm { first: 0x2u64, last: 0x2u64 },
            EnumArm { first: 0x3u64, last: 0x3u64 },
            EnumArm { first: 0x4u64, last: 0x4u64 }
        ],
    }
}

/// How an add-on content item is delivered.
pub fn recv_type_enum() -> (r: EnumDesc)
    ensures
        r@ == spec_recv_type_enum(),
        enum_wf(r@),
{
    let mut arms: Vec<EnumArm> = Vec::new();

    arms.push(EnumArm { first: 0x0, last: 0x0 });
    arms.push(EnumArm { first: 0x1, last: 0x1 });
    arms.push(EnumArm { first: 0x2, last: 0x2 });
    arms.push(EnumArm { first: 0x3, last: 0x3 });
    arms.push(EnumArm { first: 0x4, last: 0x4 });
    proof {
        assert(arms@ =~= spec_recv_type_enum().arms);
    }
    EnumDesc { width: EnumWidth::U32, arms }
}

pub open spec fn spec_use_data_type_enum() -> EnumDescV {
    EnumDescV {
        width: EnumWidth::U32,
        arms: seq![
            EnumArm { first: 0x0u64, last: 0x0u64 },
            EnumArm { first: 0x1u64, last: 0x1u64 }
        ],
    }
}

/// Whether a condition parameter block is the common one or a unique one.
pub fn use_data_type_enum() -> (r: EnumDesc)
    ensures
        r@ == spec_use_data_type_enum(),
        enum_wf(r@),
{
    let mut arms: Vec<EnumArm> = Vec::new();

    arms.push(EnumArm { first: 0x0, last: 0x0 });
    arms.push(EnumArm { first: 0x1, last: 0x1 });
    proof {
        assert(arms@ =~= spec_use_data_type_enum().arms);
    }
    EnumDesc { width: EnumWidth::U32, arms }
}

pub open spec fn spec_condition_damage_used_enum() -> EnumDescV {
    EnumDescV {
        width: EnumWidth::U8,
        arms: seq![
            EnumArm { first: 0x0u64, last: 0x0u64 },
            EnumArm { first: 0x1u64, last: 0x1u64 }
        ],
    }
}

/// Whether one condition of a monster is in use.
pub fn condition_damage_used_enum() -> (r: EnumDesc)
    ensures
        r@ == spec_condition_damage_used_enum(),
        enum_wf(r@),
{
    let mut arms: Vec<EnumArm> = Vec::new();

    arms.push(EnumArm { first: 0x0, last: 0x0 });
    arms.push(EnumArm { first: 0x1, last: 0x1 });
    proof {
        assert(arms@ =~= spec_condition_damage_used_enum().arms);
    }
    EnumDesc { width: EnumWidth::U8, arms }
}

pub open spec fn spec_armor_base_user_data_param_desc() -> TypeDescV {
    TypeDescV {
        name: "snow.data.ArmorBaseUserData.Param"@,
        type_hash: 0x68d0776cu32,
        declared_version: 100002u32,
        fields: seq![
            FieldDesc { kind: FieldKind::Atom(ElemKind::Enum(ENUM_PL_ARMOR_ID)), min_version: 0u32 },
            FieldDesc { kind: FieldKind::Atom(ElemKind::Bool), min_version: 0u32 },
            FieldDesc { kind: FieldKind::Atom(ElemKind::I32), min_version: 0u32 },
            FieldDesc { kind: FieldKind::Atom(ElemKind::U32), min_version: 0u32 },
            FieldDesc { kind: FieldKind::Atom(ElemKind::U32), min_version: 0u32 },
            FieldDesc { kind: FieldKind::Atom(ElemKind::U8), min_version: 0u32 },
            FieldDesc { kind: FieldKind::Atom(ElemKind::U32), min_version: 0u32 },
            FieldDesc { kind: FieldKind::Atom(ElemKind::U32), min_version: 0u32 },
            FieldDesc { kind: FieldKind::Atom(ElemKind::Enum(ENUM_SEXUAL_EQUIPABLE_FLAG)), min_version: 0u32 },
            FieldDesc { kind: FieldKind::Atom(ElemKind::Bool), min_version: 0u32 },
            FieldDesc { kind: FieldKind::Atom(ElemKind::Bool), min_version: 0u32 },
            FieldDesc { kind: FieldKind::Atom(ElemKind::I32), min_version: 0u32 },
            FieldDesc { kind: FieldKind::Atom(ElemKind::I32), min_version: 0u32 },
            FieldDesc { kind: FieldKind::Atom(ElemKind::I32), min_version: 0u32 },
            FieldDesc { kind: FieldKind::Atom(ElemKind::I32), min_version: 0u32 },
            FieldDesc { kind: FieldKind::Atom(ElemKind::I32), min_version: 0u32 },
            FieldDesc { kind: FieldKind::Atom(ElemKind::I32), min_version: 0u32 },
            FieldDesc { kind: FieldKind::Atom(ElemKind::I32), min_version: 0u32 },
            FieldDesc { kind: FieldKind::Atom(ElemKind::I32), min_version: 0u32 },
            FieldDesc { kind: FieldKind::FixedArray(ElemKind::U32, 4), min_version: 0u32 },
            FieldDesc { kind: FieldKind::Array(ElemKind::U32), min_version: 0u32 },
            FieldDesc { kind: FieldKind::Array(ElemKind::I32), min_version: 0u32 },
            FieldDesc { kind: FieldKind::Atom(ElemKind::Enum(ENUM_PL_ARMOR_ID)), min_version: 0u32 },
            FieldDesc { kind: FieldKind::Atom(ElemKind::U32), min_version: 0u32 },
            FieldDesc { kind: FieldKind::Atom(ElemKind::U32), min_version: 0u32 }
        ],
    }
}

/// One armor piece's base record.
pub fn armor_base_user_data_param_desc() -> (r: TypeDesc)
    ensures
        r@ == spec_armor_base_user_data_param_desc(),
{
    let mut fields: Vec<FieldDesc> = Vec::new();

    fields.push(FieldDesc { kind: FieldKind::Atom(ElemKind::Enum(ENUM_PL_ARMOR_ID)), min_version: 0 });
    fields.push(FieldDesc { kind: FieldKind::Atom(ElemKind::Bool), min_version: 0 });
    fields.push(FieldDesc { kind: FieldKind::Atom(ElemKind::I32), min_version: 0 });
    fields.push(FieldDesc { kind: FieldKind::Atom(ElemKind::U32), min_version: 0 });
    fields.push(FieldDesc { kind: FieldKind::Atom(ElemKind::U32), min_version: 0 });
    fields.push(FieldDesc { kind: FieldKind::Atom(ElemKind::U8), min_version: 0 });
    fields.push(FieldDesc { kind: FieldKind::Atom(ElemKind::U32), min_version: 0 });
    fields.push(FieldDesc { kind: FieldKind::Atom(ElemKind::U32), min_version: 0 });
    fields.push(FieldDesc { kind: FieldKind::Atom(ElemKind::Enum(ENUM_SEXUAL_EQUIPABLE_FLAG)), min_version: 0 });
    fields.push(FieldDesc { kind: FieldKind::Atom(ElemKind::Bool), min_version: 0 });
    fields.push(FieldDesc { kind: FieldKind::Atom(ElemKind::Bool), min_version: 0 });
    fields.push(FieldDesc { kind: FieldKind::Atom(ElemKind::I32), min_version: 0 });
    fields.push(FieldDesc { kind: FieldKind::Atom(ElemKind::I32), min_version: 0 });
    fields.push(FieldDesc { kind: FieldKind::Atom(ElemKind::I32), min_version: 0 });
    fields.push(FieldDesc { kind: FieldKind::Atom(ElemKind::I32), min_version: 0 });
    fields.push(FieldDesc { kind: FieldKind::Atom(ElemKind::I32), min_version: 0 });
    fields.push(FieldDesc { kind: FieldKind::Atom(ElemKind::I32), min_version: 0 });
    fields.push(FieldDesc { kind: FieldKind::Atom(ElemKind::I32), min_version: 0 });
    fields.push(FieldDesc { kind: FieldKind::Atom(ElemKind::I32), min_version: 0 });
    fields.push(FieldDesc { kind: FieldKind::FixedArray(ElemKind::U32, 4), min_version: 0 });
    fields.push(FieldDesc { kind: FieldKind::Array(ElemKind::U32), min_version: 0 });
    fields.push(FieldDesc { kind: FieldKind::Array(ElemKind::I32), min_version: 0 });
    fields.push(FieldDesc { kind: FieldKind::Atom(ElemKind::Enum(ENUM_PL_ARMOR_ID)), min_version: 0 });
    fields.push(FieldDesc { kind: FieldKind::Atom(ElemKind::U32), min_version: 0 });
    fields.push(FieldDesc { kind: FieldKind::Atom(ElemKind::U32), min_version: 0 });
    proof {
        assert(fields@ =~= spec_armor_base_user_data_param_desc().fields);
    }
    TypeDesc { name: "snow.data.ArmorBaseUserData.Param", type_hash: 0x68d0776c, declared_version: 100002, fields }
}

pub open spec fn spec_armor_base_user_data_desc() -> TypeDescV {
    TypeDescV {
        name: "snow.data.ArmorBaseUserData"@,
        type_hash: 0x2b3920a5u32,
        declared_version: 0u32,
        fields: seq![
            FieldDesc { kind: FieldKind::Array(ElemKind::Object), min_version: 0u32 }
        ],
    }
}

/// The armor base table: one record per piece.
pub fn armor_base_user_data_desc() -> (r: TypeDesc)
    ensures
        r@ == spec_armor_base_user_data_desc(),
{
    let mut fields: Vec<FieldDesc> = Vec::new();

    fields.push(FieldDesc { kind: FieldKind::Array(ElemKind::Object), min_version: 0 });
    proof {
        assert(fields@ =~= spec_armor_base_user_data_desc().fields);
    }
    TypeDesc { name: "snow.data.ArmorBaseUserData", type_hash: 0x2b3920a5, declared_version: 0, fields }
}

pub open spec fn spec_armor_series_user_data_param_desc() -> TypeDescV {
    TypeDescV {
        name: "snow.data.ArmorSeriesUserData.Param"@,
        type_hash: 0xbf2780d1u32,
        declared_version: 100002u32,
        fields: seq![
            FieldDesc { kind: FieldKind::Atom(ElemKind::I32), min_version: 0u32 },
            FieldDesc { kind: FieldKind::Atom(ElemKind::Enum(ENUM_EQUIP_DIFFICULTY_GROUP)), min_version: 0u32 },
            FieldDesc { kind: FieldKind::Atom(ElemKind::Bool), min_version: 0u32 },
            FieldDesc { kind: FieldKind::Atom(ElemKind::U32), min_version: 0u32 },
            FieldDesc { kind: FieldKind::Atom(ElemKind::U32), min_version: 0u32 },
            FieldDesc { kind: FieldKind::Atom(ElemKind::Enum(ENUM_SEXUAL_EQUIPABLE_FLAG)), min_version: 0u32 }
        ],
    }
}

/// One armor series' record.
pub fn armor_series_user_data_param_desc() -> (r: TypeDesc)
    ensures
        r@ == spec_armor_series_user_data_param_desc(),
{
    let mut fields: Vec<FieldDesc> = Vec::new();

    fields.push(FieldDesc { kind: FieldKind::Atom(ElemKind::I32), min_version: 0 });
    fields.push(FieldDesc { kind: FieldKind::Atom(ElemKind::Enum(ENUM_EQUIP_DIFFICULTY_GROUP)), min_version: 0 });
    fields.push(FieldDesc { kind: FieldKind::Atom(ElemKind::Bool), min_version: 0 });
    fields.push(FieldDesc { kind: FieldKind::Atom(ElemKind::U32), min_version: 0 });
    fields.push(FieldDesc { kind: FieldKind::Atom(ElemKind::U32), min_version: 0 });
    fields.push(FieldDesc { kind: FieldKind::Atom(ElemKind::Enum(ENUM_SEXUAL_EQUIPABLE_FLAG)), min_version: 0 });
    proof {
        assert(fields@ =~= spec_armor_series_user_data_param_desc().fields);
    }
    TypeDesc { name: "snow.data.ArmorSeriesUserData.Param", type_hash: 0xbf2780d1, declared_version: 100002, fields }
}

pub open spec fn spec_armor_series_user_data_desc() -> TypeDescV {
    TypeDescV {
        name: "snow.data.ArmorSeriesUserData"@,
        type_hash: 0x45342000u32,
        declared_version: 0u32,
        fields: seq![
            FieldDesc { kind: FieldKind::Array(ElemKind::Object), min_version: 0u32 }
        ],
    }
}

/// The armor series table.
pub fn armor_series_user_data_desc() -> (r: TypeDesc)
    ensures
        r@ == spec_armor_series_user_data_desc(),
{
    let mut fields: Vec<FieldDesc> = Vec::new();

    fields.push(FieldDesc { kind: FieldKind::Array(ElemKind::Object), min_version: 0 });
    proof {
        assert(fields@ =~= spec_armor_series_user_data_desc().fields);
    }
    TypeDesc { name: "snow.data.ArmorSeriesUserData", type_hash: 0x45342000, declared_version: 0, fields }
}

pub open spec fn spec_armor_product_user_data_param_desc() -> TypeDescV {
    TypeDescV {
        name: "snow.data.ArmorProductUserData.Param"@,
        type_hash: 0x112ceb90u32,
        declared_version: 100002u32,
        fields: seq![
            FieldDesc { kind: FieldKind::Atom(ElemKind::Enum(ENUM_PL_ARMOR_ID)), min_version: 0u32 },
            FieldDesc { kind: FieldKind::Atom(ElemKind::U32), min_version: 0u32 },
            FieldDesc { kind: FieldKind::Atom(ElemKind::U32), min_version: 0u32 },
            FieldDesc { kind: FieldKind::Atom(ElemKind::I32), min_version: 0u32 },
            FieldDesc { kind: FieldKind::Array(ElemKind::U32), min_version: 0u32 },
            FieldDesc { kind: FieldKind::Array(ElemKind::U32), min_version: 0u32 },
            FieldDesc { kind: FieldKind::Atom(ElemKind::U32), min_version: 0u32 },
            FieldDesc { kind: FieldKind::Atom(ElemKind::U32), min_version: 0u32 },
            FieldDesc { kind: FieldKind::Array(ElemKind::U32), min_version: 0u32 },
            FieldDesc { kind: FieldKind::Array(ElemKind::U32), min_version: 0u32 }
        ],
    }
}

/// The crafting requirements of one armor piece.
pub fn armor_product_user_data_param_desc() -> (r: TypeDesc)
    ensures
        r@ == spec_armor_product_user_data_param_desc(),
{
    let mut fields: Vec<FieldDesc> = Vec::new();

    fields.push(FieldDesc { kind: FieldKind::Atom(ElemKind::Enum(ENUM_PL_ARMOR_ID)), min_version: 0 });
    fields.push(FieldDesc { kind: FieldKind::Atom(ElemKind::U32), min_version: 0 });
    fields.push(FieldDesc { kind: FieldKind::Atom(ElemKind::U32), min_version: 0 });
    fields.push(FieldDesc { kind: FieldKind::Atom(ElemKind::I32), min_version: 0 });
    fields.push(FieldDesc { kind: FieldKind::Array(ElemKind::U32), min_version: 0 });
    fields.push(FieldDesc { kind: FieldKind::Array(ElemKind::U32), min_version: 0 });
    fields.push(FieldDesc { kind: FieldKind::Atom(ElemKind::U32), min_version: 0 });
    fields.push(FieldDesc { kind: FieldKind::Atom(ElemKind::U32), min_version: 0 });
    fields.push(FieldDesc { kind: FieldKind::Array(ElemKind::U32), min_version: 0 });
    fields.push(FieldDesc { kind: FieldKind::Array(ElemKind::U32), min_version: 0 });
    proof {
        assert(fields@ =~= spec_armor_product_user_data_param_desc().fields);
    }
    TypeDesc { name: "snow.data.ArmorProductUserData.Param", type_hash: 0x112ceb90, declared_version: 100002, fields }
}

pub open spec fn spec_armor_product_user_data_desc() -> TypeDescV {
    TypeDescV {
        name: "snow.data.ArmorProductUserData"@,
        type_hash: 0x0b84dd13u32,
        declared_version: 0u32,
        fields: seq![
            FieldDesc { kind: FieldKind::Array(ElemKind::Object), min_version: 0u32 }
        ],
    }
}

/// The armor crafting table.
pub fn armor_product_user_data_desc() -> (r: TypeDesc)
    ensures
        r@ == spec_armor_product_user_data_desc(),
{
    let mut fields: Vec<FieldDesc> = Vec::new();

    fields.push(FieldDesc { kind: FieldKind::Array(ElemKind::Object), min_version: 0 });
    proof {
        assert(fields@ =~= spec_armor_product_user_data_desc().fields);
    }
    TypeDesc { name: "snow.data.ArmorProductUserData", type_hash: 0x0b84dd13, declared_version: 0, fields }
}

pub open spec fn spec_pl_overwear_base_user_data_param_desc() -> TypeDescV {
    TypeDescV {
        name: "snow.equip.PlOverwearBaseUserData.Param"@,
        type_hash: 0x8be3d1fcu32,
        declared_version: 100002u32,
        fields: seq![
            FieldDesc { kind: FieldKind::Atom(ElemKind::Enum(ENUM_PL_OVERWEAR_ID)), min_version: 0u32 },
            FieldDesc { kind: FieldKind::Atom(ElemKind::Bool), min_version: 0u32 },
            FieldDesc { kind: FieldKind::Atom(ElemKind::Enum(ENUM_PL_ARMOR_ID)), min_version: 0u32 },
            FieldDesc { kind: FieldKind::Atom(ElemKind::I32), min_version: 0u32 },
            FieldDesc { kind: FieldKind::Atom(ElemKind::U32), min_version: 0u32 },
            FieldDesc { kind: FieldKind::Atom(ElemKind::U32), min_version: 0u32 },
            FieldDesc { kind: FieldKind::Atom(ElemKind::U8), min_version: 0u32 },
            FieldDesc { kind: FieldKind::Atom(ElemKind::U32), min_version: 0u32 },
            FieldDesc { kind: FieldKind::Atom(ElemKind::Enum(ENUM_SEXUAL_EQUIPABLE_FLAG)), min_version: 0u32 },
            FieldDesc { kind: FieldKind::Array(ElemKind::Bool), min_version: 0u32 },
            FieldDesc { kind: FieldKind::Atom(ElemKind::Bool), min_version: 0u32 }
        ],
    }
}

/// One layered-armor piece's base record.
pub fn pl_overwear_base_user_data_param_desc() -> (r: TypeDesc)
    ensures
        r@ == spec_pl_overwear_base_user_data_param_desc(),
{
    let mut fields: Vec<FieldDesc> = Vec::new();

    fields.push(FieldDesc { kind: FieldKind::Atom(ElemKind::Enum(ENUM_PL_OVERWEAR_ID)), min_version: 0 });
    fields.push(FieldDesc { kind: FieldKind::Atom(ElemKind::Bool), min_version: 0 });
    fields.push(FieldDesc { kind: FieldKind::Atom(ElemKind::Enum(ENUM_PL_ARMOR_ID)), min_version: 0 });
    fields.push(FieldDesc { kind: FieldKind::Atom(ElemKind::I32), min_version: 0 });
    fields.push(FieldDesc { kind: FieldKind::Atom(ElemKind::U32), min_version: 0 });
    fields.push(FieldDesc { kind: FieldKind::Atom(ElemKind::U32), min_version: 0 });
    fields.push(FieldDesc { kind: FieldKind::Atom(ElemKind::U8), min_version: 0 });
    fields.push(FieldDesc { kind: FieldKind::Atom(ElemKind::U32), min_version: 0 });
    fields.push(FieldDesc { kind: FieldKind::Atom(ElemKind::Enum(ENUM_SEXUAL_EQUIPABLE_FLAG)), min_version: 0 });
    fields.push(FieldDesc { kind: FieldKind::Array(ElemKind::Bool), min_version: 0 });
    fields.push(FieldDesc { kind: FieldKind::Atom(ElemKind::Bool), min_version: 0 });
    proof {
        assert(fields@ =~= spec_pl_overwear_base_user_data_param_desc().fields);
    }
    TypeDesc { name: "snow.equip.PlOverwearBaseUserData.Param", type_hash: 0x8be3d1fc, declared_version: 100002, fields }
}

pub open spec fn spec_pl_overwear_base_user_data_desc() -> TypeDescV {
    TypeDescV {
        name: "snow.equip.PlOverwearBaseUserData"@,
        type_hash: 0x495e0b7au32,
        declared_version: 0u32,
        fields: seq![
            FieldDesc { kind: FieldKind::Array(ElemKind::Object), min_version: 0u32 }
        ],
    }
}

/// The layered-armor base table.
pub fn pl_overwear_base_user_data_desc() -> (r: TypeDesc)
    ensures
        r@ == spec_pl_overwear_base_user_data_desc(),
{
    let mut fields: Vec<FieldDesc> = Vec::new();

    fields.push(FieldDesc { kind: FieldKind::Array(ElemKind::Object), min_version: 0 });
    proof {
        assert(fields@ =~= spec_pl_overwear_base_user_data_desc().fields);
    }
    TypeDesc { name: "snow.equip.PlOverwearBaseUserData", type_hash: 0x495e0b7a, declared_version: 0, fields }
}

pub open spec fn spec_pl_overwear_product_user_data_param_desc() -> TypeDescV {
    TypeDescV {
        name: "snow.equip.PlOverwearProductUserData.Param"@,
        type_hash: 0x2b8f5c1eu32,
        declared_version: 100002u32,
        fields: seq![
            FieldDesc { kind: FieldKind::Atom(ElemKind::Enum(ENUM_PL_OVERWEAR_ID)), min_version: 0u32 },
            FieldDesc { kind: FieldKind::Atom(ElemKind::U32), min_version: 0u32 },
            FieldDesc { kind: FieldKind::Atom(ElemKind::U32), min_version: 0u32 },
            FieldDesc { kind: FieldKind::Atom(ElemKind::I32), min_version: 0u32 },
            FieldDesc { kind: FieldKind::Atom(ElemKind::Bool), min_version: 0u32 },
            FieldDesc { kind: FieldKind::Atom(ElemKind::Bool), min_version: 0u32 },
            FieldDesc { kind: FieldKind::Array(ElemKind::U32), min_version: 0u32 },
            FieldDesc { kind: FieldKind::Array(ElemKind::U32), min_version: 0u32 },
            FieldDesc { kind: FieldKind::Atom(ElemKind::U32), min_version: 0u32 },
            FieldDesc { kind: FieldKind::Atom(ElemKind::U32), min_version: 0u32 },
            FieldDesc { kind: FieldKind::Atom(ElemKind::Bool), min_version: 0u32 }
        ],
    }
}

/// The crafting requirements of one layered-armor piece.
pub fn pl_overwear_product_user_data_param_desc() -> (r: TypeDesc)
    ensures
        r@ == spec_pl_overwear_product_user_data_param_desc(),
{
    let mut fields: Vec<FieldDesc> = Vec::new();

    fields.push(FieldDesc { kind: FieldKind::Atom(ElemKind::Enum(ENUM_PL_OVERWEAR_ID)), min_version: 0 });
    fields.push(FieldDesc { kind: FieldKind::Atom(ElemKind::U32), min_version: 0 });
    fields.push(FieldDesc { kind: FieldKind::Atom(ElemKind::U32), min_version: 0 });
    fields.push(FieldDesc { kind: FieldKind::Atom(ElemKind::I32), min_version: 0 });
    fields.push(FieldDesc { kind: FieldKind::Atom(ElemKind::Bool), min_version: 0 });
    fields.push(FieldDesc { kind: FieldKind::Atom(ElemKind::Bool), min_version: 0 });
    fields.push(FieldDesc { kind: FieldKind::Array(ElemKind::U32), min_version: 0 });
    fields.push(FieldDesc { kind: FieldKind::Array(ElemKind::U32), min_version: 0 });
    fields.push(FieldDesc { kind: FieldKind::Atom(ElemKind::U32), min_version: 0 });
    fields.push(FieldDesc { kind: FieldKind::Atom(ElemKind::U32), min_version: 0 });
    fields.push(FieldDesc { kind: FieldKind::Atom(ElemKind::Bool), min_version: 0 });
    proof {
        assert(fields@ =~= spec_pl_overwear_product_user_data_param_desc().fields);
    }
    TypeDesc { name: "snow.equip.PlOverwearProductUserData.Param", type_hash: 0x2b8f5c1e, declared_version: 100002, fields }
}

pub open spec fn spec_pl_overwear_product_user_data_desc() -> TypeDescV {
    TypeDescV {
        name: "snow.equip.PlOverwearProductUserData"@,
        type_hash: 0x3d82ca7bu32,
        declared_version: 0u32,
        fields: seq![
            FieldDesc { kind: FieldKind::Array(ElemKind::Object), min_version: 0u32 }
        ],
    }
}

/// The layered-armor crafting table.
pub fn pl_overwear_product_user_data_desc() -> (r: TypeDesc)
    ensures
        r@ == spec_pl_overwear_product_user_data_desc(),
{
    let mut fields: Vec<FieldDesc> = Vec::new();

    fields.push(FieldDesc { kind: FieldKind::Array(ElemKind::Object), min_version: 0 });
    proof {
        assert(fields@ =~= spec_pl_overwear_product_user_data_desc().fields);
    }
    TypeDesc { name: "snow.equip.PlOverwearProductUserData", type_hash: 0x3d82ca7b, declared_version: 0, fields }
}

pub open spec fn spec_custom_buildup_result_desc(type_hash: u32, declared_version: u32) -> TypeDescV {
    TypeDescV {
        name: "snow.data.EquipmentInventoryData.CustomBuildupResult"@,
        type_hash: type_hash,
        declared_version: declared_version,
        fields: seq![
            FieldDesc { kind: FieldKind::Atom(ElemKind::U16), min_version: 0u32 },
            FieldDesc { kind: FieldKind::Atom(ElemKind::U32), min_version: 0u32 },
            FieldDesc { kind: FieldKind::Atom(ElemKind::U32), min_version: 0u32 }
        ],
    }
}

/// One applied custom-buildup augment; registered once per release hash.
pub fn custom_buildup_result_desc(type_hash: u32, declared_version: u32) -> (r: TypeDesc)
    ensures
        r@ == spec_custom_buildup_result_desc(type_hash, declared_version),
{
    let mut fields: Vec<FieldDesc> = Vec::new();

    fields.push(FieldDesc { kind: FieldKind::Atom(ElemKind::U16), min_version: 0 });
    fields.push(FieldDesc { kind: FieldKind::Atom(ElemKind::U32), min_version: 0 });
    fields.push(FieldDesc { kind: FieldKind::Atom(ElemKind::U32), min_version: 0 });
    proof {
        assert(fields@ =~= spec_custom_buildup_result_desc(type_hash, declared_version).fields);
    }
    TypeDesc { name: "snow.data.EquipmentInventoryData.CustomBuildupResult", type_hash: type_hash, declared_version: declared_version, fields }
}

pub open spec fn spec_symbol_color_data_desc() -> TypeDescV {
    TypeDescV {
        name: "snow.data.SymbolColorData"@,
        type_hash: 0x3E133A29u32,
        declared_version: 100002u32,
        fields: seq![
            FieldDesc { kind: FieldKind::Atom(ElemKind::Bool), min_version: 0u32 },
            FieldDesc { kind: FieldKind::Atom(ElemKind::Bool), min_version: 0u32 },
            FieldDesc { kind: FieldKind::FixedArray(ElemKind::I32, 3), min_version: 0u32 }
        ],
    }
}

/// A symbol color: two flags and an integer color vector.
pub fn symbol_color_data_desc() -> (r: TypeDesc)
    ensures
        r@ == spec_symbol_color_data_desc(),
{
    let mut fields: Vec<FieldDesc> = Vec::new();

    fields.push(FieldDesc { kind: FieldKind::Atom(ElemKind::Bool), min_version: 0 });
    fields.push(FieldDesc { kind: FieldKind::Atom(ElemKind::Bool), min_version: 0 });
    fields.push(FieldDesc { kind: FieldKind::FixedArray(ElemKind::I32, 3), min_version: 0 });
    proof {
        assert(fields@ =~= spec_symbol_color_data_desc().fields);
    }
    TypeDesc { name: "snow.data.SymbolColorData", type_hash: 0x3E133A29, declared_version: 100002, fields }
}

pub open spec fn spec_equipment_inventory_data_desc(type_hash: u32, declared_version: u32) -> TypeDescV {
    TypeDescV {
        name: "snow.data.EquipmentInventoryData"@,
        type_hash: type_hash,
        declared_version: declared_version,
        fields: seq![
            FieldDesc { kind: FieldKind::Atom(ElemKind::Enum(ENUM_EQUIPMENT_INVENTORY_ID_TYPES)), min_version: 0u32 },
            FieldDesc { kind: FieldKind::Atom(ElemKind::U32), min_version: 0u32 },
            FieldDesc { kind: FieldKind::Atom(ElemKind::Bool), min_version: 110001u32 },
            FieldDesc { kind: FieldKind::Atom(ElemKind::I32), min_version: 0u32 },
            FieldDesc { kind: FieldKind::Atom(ElemKind::I32), min_version: 0u32 },
            FieldDesc { kind: FieldKind::Array(ElemKind::U32), min_version: 0u32 },
            FieldDesc { kind: FieldKind::Array(ElemKind::U32), min_version: 0u32 },
            FieldDesc { kind: FieldKind::Atom(ElemKind::U32), min_version: 0u32 },
            FieldDesc { kind: FieldKind::Atom(ElemKind::Object), min_version: 0u32 },
            FieldDesc { kind: FieldKind::Atom(ElemKind::I32), min_version: 0u32 },
            FieldDesc { kind: FieldKind::Atom(ElemKind::Bool), min_version: 0u32 },
            FieldDesc { kind: FieldKind::Array(ElemKind::U32), min_version: 0u32 },
            FieldDesc { kind: FieldKind::Array(ElemKind::U32), min_version: 0u32 },
            FieldDesc { kind: FieldKind::Array(ElemKind::U32), min_version: 0u32 },
            FieldDesc { kind: FieldKind::Atom(ElemKind::Bool), min_version: 110001u32 },
            FieldDesc { kind: FieldKind::Atom(ElemKind::I32), min_version: 110001u32 },
            FieldDesc { kind: FieldKind::Array(ElemKind::U16), min_version: 110001u32 },
            FieldDesc { kind: FieldKind::Array(ElemKind::Object), min_version: 110001u32 },
            FieldDesc { kind: FieldKind::Atom(ElemKind::I8), min_version: 130000u32 },
            FieldDesc { kind: FieldKind::Array(ElemKind::U32), min_version: 0u32 },
            FieldDesc { kind: FieldKind::Atom(ElemKind::U32), min_version: 0u32 }
        ],
    }
}

/// One equipment inventory slot; registered once per release hash. Several
/// fields were introduced in later schema versions and carry thresholds.
pub fn equipment_inventory_data_desc(type_hash: u32, declared_version: u32) -> (r: TypeDesc)
    ensures
        r@ == spec_equipment_inventory_data_desc(type_hash, declared_version),
{
    let mut fields: Vec<FieldDesc> = Vec::new();

    fields.push(FieldDesc { kind: FieldKind::Atom(ElemKind::Enum(ENUM_EQUIPMENT_INVENTORY_ID_TYPES)), min_version: 0 });
    fields.push(FieldDesc { kind: FieldKind::Atom(ElemKind::U32), min_version: 0 });
    fields.push(FieldDesc { kind: FieldKind::Atom(ElemKind::Bool), min_version: 110001 });
    fields.push(FieldDesc { kind: FieldKind::Atom(ElemKind::I32), min_version: 0 });
    fields.push(FieldDesc { kind: FieldKind::Atom(ElemKind::I32), min_version: 0 });
    fields.push(FieldDesc { kind: FieldKind::Array(ElemKind::U32), min_version: 0 });
    fields.push(FieldDesc { kind: FieldKind::Array(ElemKind::U32), min_version: 0 });
    fields.push(FieldDesc { kind: FieldKind::Atom(ElemKind::U32), min_version: 0 });
    fields.push(FieldDesc { kind: FieldKind::Atom(ElemKind::Object), min_version: 0 });
    fields.push(FieldDesc { kind: FieldKind::Atom(ElemKind::I32), min_version: 0 });
    fields.push(FieldDesc { kind: FieldKind::Atom(ElemKind::Bool), min_version: 0 });
    fields.push(FieldDesc { kind: FieldKind::Array(ElemKind::U32), min_version: 0 });
    fields.push(FieldDesc { kind: FieldKind::Array(ElemKind::U32), min_version: 0 });
    fields.push(FieldDesc { kind: FieldKind::Array(ElemKind::U32), min_version: 0 });
    fields.push(FieldDesc { kind: FieldKind::Atom(ElemKind::Bool), min_version: 110001 });
    fields.push(FieldDesc { kind: FieldKind::Atom(ElemKind::I32), min_version: 110001 });
    fields.push(FieldDesc { kind: FieldKind::Array(ElemKind::U16), min_version: 110001 });
    fields.push(FieldDesc { kind: FieldKind::Array(ElemKind::Object), min_version: 110001 });
    fields.push(FieldDesc { kind: FieldKind::Atom(ElemKind::I8), min_version: 130000 });
    fields.push(FieldDesc { kind: FieldKind::Array(ElemKind::U32), min_version: 0 });
    fields.push(FieldDesc { kind: FieldKind::Atom(ElemKind::U32), min_version: 0 });
    proof {
        assert(fields@ =~= spec_equipment_inventory_data_desc(type_hash, declared_version).fields);
    }
    TypeDesc { name: "snow.data.EquipmentInventoryData", type_hash: type_hash, declared_version: declared_version, fields }
}

pub open spec fn spec_add_data_info_desc(type_hash: u32, declared_version: u32) -> TypeDescV {
    TypeDescV {
        name: "snow.data.Dlc.DlcAddUserData.AddDataInfo"@,
        type_hash: type_hash,
        declared_version: declared_version,
        fields: seq![
            FieldDesc { kind: FieldKind::Atom(ElemKind::I32), min_version: 0u32 },
            FieldDesc { kind: FieldKind::Atom(ElemKind::Enum(ENUM_SAVE_LINK_CONTENTS)), min_version: 0u32 },
            FieldDesc { kind: FieldKind::Array(ElemKind::U32), min_version: 0u32 },
            FieldDesc { kind: FieldKind::Array(ElemKind::Enum(ENUM_PL_ARMOR_ID)), min_version: 0u32 },
            FieldDesc { kind: FieldKind::Array(ElemKind::Object), min_version: 0u32 },
            FieldDesc { kind: FieldKind::Array(ElemKind::Enum(ENUM_PL_OVERWEAR_ID)), min_version: 0u32 },
            FieldDesc { kind: FieldKind::Array(ElemKind::U32), min_version: 0u32 },
            FieldDesc { kind: FieldKind::Array(ElemKind::U32), min_version: 120000u32 }
        ],
    }
}

/// One add-on content grant; registered once per release hash.
pub fn add_data_info_desc(type_hash: u32, declared_version: u32) -> (r: TypeDesc)
    ensures
        r@ == spec_add_data_info_desc(type_hash, declared_version),
{
    let mut fields: Vec<FieldDesc> = Vec::new();

    fields.push(FieldDesc { kind: FieldKind::Atom(ElemKind::I32), min_version: 0 });
    fields.push(FieldDesc { kind: FieldKind::Atom(ElemKind::Enum(ENUM_SAVE_LINK_CONTENTS)), min_version: 0 });
    fields.push(FieldDesc { kind: FieldKind::Array(ElemKind::U32), min_version: 0 });
    fields.push(FieldDesc { kind: FieldKind::Array(ElemKind::Enum(ENUM_PL_ARMOR_ID)), min_version: 0 });
    fields.push(FieldDesc { kind: FieldKind::Array(ElemKind::Object), min_version: 0 });
    fields.push(FieldDesc { kind: FieldKind::Array(ElemKind::Enum(ENUM_PL_OVERWEAR_ID)), min_version: 0 });
    fields.push(FieldDesc { kind: FieldKind::Array(ElemKind::U32), min_version: 0 });
    fields.push(FieldDesc { kind: FieldKind::Array(ElemKind::U32), min_version: 120000 });
    proof {
        assert(fields@ =~= spec_add_data_info_desc(type_hash, declared_version).fields);
    }
    TypeDesc { name: "snow.data.Dlc.DlcAddUserData.AddDataInfo", type_hash: type_hash, declared_version: declared_version, fields }
}

pub open spec fn spec_dlc_add_user_data_desc() -> TypeDescV {
    TypeDescV {
        name: "snow.data.Dlc.DlcAddUserData"@,
        type_hash: 0x4C2CD0C1u32,
        declared_version: 100002u32,
        fields: seq![
            FieldDesc { kind: FieldKind::Array(ElemKind::Object), min_version: 0u32 }
        ],
    }
}

/// The add-on content grant table.
pub fn dlc_add_user_data_desc() -> (r: TypeDesc)
    ensures
        r@ == spec_dlc_add_user_data_desc(),
{
    let mut fields: Vec<FieldDesc> = Vec::new();

    fields.push(FieldDesc { kind: FieldKind::Array(ElemKind::Object), min_version: 0 });
    proof {
        assert(fields@ =~= spec_dlc_add_user_data_desc().fields);
    }
    TypeDesc { name: "snow.data.Dlc.DlcAddUserData", type_hash: 0x4C2CD0C1, declared_version: 100002, fields }
}

pub open spec fn spec_dlc_data_desc(type_hash: u32, declared_version: u32) -> TypeDescV {
    TypeDescV {
        name: "snow.DlcData"@,
        type_hash: type_hash,
        declared_version: declared_version,
        fields: seq![
            FieldDesc { kind: FieldKind::Atom(ElemKind::I32), min_version: 0u32 },
            FieldDesc { kind: FieldKind::Atom(ElemKind::Str), min_version: 0u32 },
            FieldDesc { kind: FieldKind::Atom(ElemKind::Enum(ENUM_RECV_TYPE)), min_version: 0u32 },
            FieldDesc { kind: FieldKind::Atom(ElemKind::I32), min_version: 0u32 },
            FieldDesc { kind: FieldKind::Atom(ElemKind::Str), min_version: 0u32 },
            FieldDesc { kind: FieldKind::Atom(ElemKind::Str), min_version: 0u32 },
            FieldDesc { kind: FieldKind::Atom(ElemKind::Bool), min_version: 0u32 },
            FieldDesc { kind: FieldKind::Atom(ElemKind::I32), min_version: 0u32 },
            FieldDesc { kind: FieldKind::Atom(ElemKind::Bool), min_version: 0u32 },
            FieldDesc { kind: FieldKind::Atom(ElemKind::I32), min_version: 0u32 }
        ],
    }
}

/// One add-on content item; registered once per release hash.
pub fn dlc_data_desc(type_hash: u32, declared_version: u32) -> (r: TypeDesc)
    ensures
        r@ == spec_dlc_data_desc(type_hash, declared_version),
{
    let mut fields: Vec<FieldDesc> = Vec::new();

    fields.push(FieldDesc { kind: FieldKind::Atom(ElemKind::I32), min_version: 0 });
    fields.push(FieldDesc { kind: FieldKind::Atom(ElemKind::Str), min_version: 0 });
    fields.push(FieldDesc { kind: FieldKind::Atom(ElemKind::Enum(ENUM_RECV_TYPE)), min_version: 0 });
    fields.push(FieldDesc { kind: FieldKind::Atom(ElemKind::I32), min_version: 0 });
    fields.push(FieldDesc { kind: FieldKind::Atom(ElemKind::Str), min_version: 0 });
    fields.push(FieldDesc { kind: FieldKind::Atom(ElemKind::Str), min_version: 0 });
    fields.push(FieldDesc { kind: FieldKind::Atom(ElemKind::Bool), min_version: 0 });
    fields.push(FieldDesc { kind: FieldKind::Atom(ElemKind::I32), min_version: 0 });
    fields.push(FieldDesc { kind: FieldKind::Atom(ElemKind::Bool), min_version: 0 });
    fields.push(FieldDesc { kind: FieldKind::Atom(ElemKind::I32), min_version: 0 });
    proof {
        assert(fields@ =~= spec_dlc_data_desc(type_hash, declared_version).fields);
    }
    TypeDesc { name: "snow.DlcData", type_hash: type_hash, declared_version: declared_version, fields }
}

pub open spec fn spec_dlc_list_user_data_desc() -> TypeDescV {
    TypeDescV {
        name: "snow.DlcListUserData"@,
        type_hash: 0xF5537B81u32,
        declared_version: 100002u32,
        fields: seq![
            FieldDesc { kind: FieldKind::Array(ElemKind::Object), min_version: 0u32 }
        ],
    }
}

/// The add-on content list.
pub fn dlc_list_user_data_desc() -> (r: TypeDesc)
    ensures
        r@ == spec_dlc_list_user_data_desc(),
{
    let mut fields: Vec<FieldDesc> = Vec::new();

    fields.push(FieldDesc { kind: FieldKind::Array(ElemKind::Object), min_version: 0 });
    proof {
        assert(fields@ =~= spec_dlc_list_user_data_desc().fields);
    }
    TypeDesc { name: "snow.DlcListUserData", type_hash: 0xF5537B81, declared_version: 100002, fields }
}

pub open spec fn spec_stock_data_desc() -> TypeDescV {
    TypeDescV {
        name: "snow.enemy.EnemyConditionDamageData.StockData"@,
        type_hash: 0x51000001u32,
        declared_version: 0u32,
        fields: seq![
            FieldDesc { kind: FieldKind::Atom(ElemKind::F32Raw), min_version: 0u32 },
            FieldDesc { kind: FieldKind::Atom(ElemKind::F32Raw), min_version: 0u32 },
            FieldDesc { kind: FieldKind::Atom(ElemKind::F32Raw), min_version: 0u32 },
            FieldDesc { kind: FieldKind::Atom(ElemKind::F32Raw), min_version: 0u32 },
            FieldDesc { kind: FieldKind::Atom(ElemKind::F32Raw), min_version: 0u32 }
        ],
    }
}

/// Accumulation parameters of one condition: limits and decay.
pub fn stock_data_desc() -> (r: TypeDesc)
    ensures
        r@ == spec_stock_data_desc(),
{
    let mut fields: Vec<FieldDesc> = Vec::new();

    fields.push(FieldDesc { kind: FieldKind::Atom(ElemKind::F32Raw), min_version: 0 });
    fields.push(FieldDesc { kind: FieldKind::Atom(ElemKind::F32Raw), min_version: 0 });
    fields.push(FieldDesc { kind: FieldKind::Atom(ElemKind::F32Raw), min_version: 0 });
    fields.push(FieldDesc { kind: FieldKind::Atom(ElemKind::F32Raw), min_version: 0 });
    fields.push(FieldDesc { kind: FieldKind::Atom(ElemKind::F32Raw), min_version: 0 });
    proof {
        assert(fields@ =~= spec_stock_data_desc().fields);
    }
    TypeDesc { name: "snow.enemy.EnemyConditionDamageData.StockData", type_hash: 0x51000001, declared_version: 0, fields }
}

pub open spec fn spec_condition_damage_data_base_desc() -> TypeDescV {
    TypeDescV {
        name: "snow.enemy.EnemyConditionDamageData.ConditionDamageDataBase"@,
        type_hash: 0x51000002u32,
        declared_version: 0u32,
        fields: seq![
            FieldDesc { kind: FieldKind::Atom(ElemKind::Object), min_version: 0u32 },
            FieldDesc { kind: FieldKind::Atom(ElemKind::Object), min_version: 0u32 },
            FieldDesc { kind: FieldKind::Atom(ElemKind::F32Raw), min_version: 0u32 },
            FieldDesc { kind: FieldKind::Atom(ElemKind::F32Raw), min_version: 0u32 },
            FieldDesc { kind: FieldKind::Atom(ElemKind::F32Raw), min_version: 0u32 },
            FieldDesc { kind: FieldKind::Atom(ElemKind::F32Raw), min_version: 0u32 },
            FieldDesc { kind: FieldKind::Atom(ElemKind::F32Raw), min_version: 0u32 },
            FieldDesc { kind: FieldKind::Atom(ElemKind::F32Raw), min_version: 0u32 },
            FieldDesc { kind: FieldKind::Atom(ElemKind::F32Raw), min_version: 0u32 }
        ],
    }
}

/// Parameters common to every condition of a monster.
pub fn condition_damage_data_base_desc() -> (r: TypeDesc)
    ensures
        r@ == spec_condition_damage_data_base_desc(),
{
    let mut fields: Vec<FieldDesc> = Vec::new();

    fields.push(FieldDesc { kind: FieldKind::Atom(ElemKind::Object), min_version: 0 });
    fields.push(FieldDesc { kind: FieldKind::Atom(ElemKind::Object), min_version: 0 });
    fields.push(FieldDesc { kind: FieldKind::Atom(ElemKind::F32Raw), min_version: 0 });
    fields.push(FieldDesc { kind: FieldKind::Atom(ElemKind::F32Raw), min_version: 0 });
    fields.push(FieldDesc { kind: FieldKind::Atom(ElemKind::F32Raw), min_version: 0 });
    fields.push(FieldDesc { kind: FieldKind::Atom(ElemKind::F32Raw), min_version: 0 });
    fields.push(FieldDesc { kind: FieldKind::Atom(ElemKind::F32Raw), min_version: 0 });
    fields.push(FieldDesc { kind: FieldKind::Atom(ElemKind::F32Raw), min_version: 0 });
    fields.push(FieldDesc { kind: FieldKind::Atom(ElemKind::F32Raw), min_version: 0 });
    proof {
        assert(fields@ =~= spec_condition_damage_data_base_desc().fields);
    }
    TypeDesc { name: "snow.enemy.EnemyConditionDamageData.ConditionDamageDataBase", type_hash: 0x51000002, declared_version: 0, fields }
}

pub open spec fn spec_paralyze_damage_data_desc() -> TypeDescV {
    TypeDescV {
        name: "snow.enemy.EnemyConditionDamageData.ParalyzeDamageData"@,
        type_hash: 0x51000003u32,
        declared_version: 0u32,
        fields: seq![
            FieldDesc { kind: FieldKind::Atom(ElemKind::Object), min_version: 0u32 },
            FieldDesc { kind: FieldKind::Atom(ElemKind::U32), min_version: 0u32 }
        ],
    }
}

/// Paralysis condition parameters.
pub fn paralyze_damage_data_desc() -> (r: TypeDesc)
    ensures
        r@ == spec_paralyze_damage_data_desc(),
{
    let mut fields: Vec<FieldDesc> = Vec::new();

    fields.push(FieldDesc { kind: FieldKind::Atom(ElemKind::Object), min_version: 0 });
    fields.push(FieldDesc { kind: FieldKind::Atom(ElemKind::U32), min_version: 0 });
    proof {
        assert(fields@ =~= spec_paralyze_damage_data_desc().fields);
    }
    TypeDesc { name: "snow.enemy.EnemyConditionDamageData.ParalyzeDamageData", type_hash: 0x51000003, declared_version: 0, fields }
}

pub open spec fn spec_flash_damage_lv_data_desc() -> TypeDescV {
    TypeDescV {
        name: "snow.enemy.EnemyFlashDamageParam.DamageLvData"@,
        type_hash: 0x51000004u32,
        declared_version: 0u32,
        fields: seq![
            FieldDesc { kind: FieldKind::Atom(ElemKind::I32), min_version: 0u32 },
            FieldDesc { kind: FieldKind::Atom(ElemKind::F32Raw), min_version: 0u32 }
        ],
    }
}

/// One flash reaction level.
pub fn flash_damage_lv_data_desc() -> (r: TypeDesc)
    ensures
        r@ == spec_flash_damage_lv_data_desc(),
{
    let mut fields: Vec<FieldDesc> = Vec::new();

    fields.push(FieldDesc { kind: FieldKind::Atom(ElemKind::I32), min_version: 0 });
    fields.push(FieldDesc { kind: FieldKind::Atom(ElemKind::F32Raw), min_version: 0 });
    proof {
        assert(fields@ =~= spec_flash_damage_lv_data_desc().fields);
    }
    TypeDesc { name: "snow.enemy.EnemyFlashDamageParam.DamageLvData", type_hash: 0x51000004, declared_version: 0, fields }
}

pub open spec fn spec_flash_damage_data_desc() -> TypeDescV {
    TypeDescV {
        name: "snow.enemy.EnemyConditionDamageData.FlashDamageData"@,
        type_hash: 0x51000005u32,
        declared_version: 0u32,
        fields: seq![
            FieldDesc { kind: FieldKind::Atom(ElemKind::Object), min_version: 0u32 },
            FieldDesc { kind: FieldKind::Array(ElemKind::Object), min_version: 0u32 },
            FieldDesc { kind: FieldKind::Atom(ElemKind::U32), min_version: 0u32 },
            FieldDesc { kind: FieldKind::Atom(ElemKind::F32Raw), min_version: 0u32 },
            FieldDesc { kind: FieldKind::Atom(ElemKind::F32Raw), min_version: 0u32 },
            FieldDesc { kind: FieldKind::Atom(ElemKind::F32Raw), min_version: 0u32 },
            FieldDesc { kind: FieldKind::Atom(ElemKind::U32), min_version: 0u32 }
        ],
    }
}

/// Flash condition parameters.
pub fn flash_damage_data_desc() -> (r: TypeDesc)
    ensures
        r@ == spec_flash_damage_data_desc(),
{
    let mut fields: Vec<FieldDesc> = Vec::new();

    fields.push(FieldDesc { kind: FieldKind::Atom(ElemKind::Object), min_version: 0 });
    fields.push(FieldDesc { kind: FieldKind::Array(ElemKind::Object), min_version: 0 });
    fields.push(FieldDesc { kind: FieldKind::Atom(ElemKind::U32), min_version: 0 });
    fields.push(FieldDesc { kind: FieldKind::Atom(ElemKind::F32Raw), min_version: 0 });
    fields.push(FieldDesc { kind: FieldKind::Atom(ElemKind::F32Raw), min_version: 0 });
    fields.push(FieldDesc { kind: FieldKind::Atom(ElemKind::F32Raw), min_version: 0 });
    fields.push(FieldDesc { kind: FieldKind::Atom(ElemKind::U32), min_version: 0 });
    proof {
        assert(fields@ =~= spec_flash_damage_data_desc().fields);
    }
    TypeDesc { name: "snow.enemy.EnemyConditionDamageData.FlashDamageData", type_hash: 0x51000005, declared_version: 0, fields }
}

pub open spec fn spec_stamina_damage_data_desc() -> TypeDescV {
    TypeDescV {
        name: "snow.enemy.EnemyConditionDamageData.StaminaDamageData"@,
        type_hash: 0x51000006u32,
        declared_version: 0u32,
        fields: seq![
            FieldDesc { kind: FieldKind::Atom(ElemKind::Object), min_version: 0u32 },
            FieldDesc { kind: FieldKind::Atom(ElemKind::F32Raw), min_version: 0u32 },
            FieldDesc { kind: FieldKind::Atom(ElemKind::U32), min_version: 0u32 }
        ],
    }
}

/// Exhaust condition parameters.
pub fn stamina_damage_data_desc() -> (r: TypeDesc)
    ensures
        r@ == spec_stamina_damage_data_desc(),
{
    let mut fields: Vec<FieldDesc> = Vec::new();

    fields.push(FieldDesc { kind: FieldKind::Atom(ElemKind::Object), min_version: 0 });
    fields.push(FieldDesc { kind: FieldKind::Atom(ElemKind::F32Raw), min_version: 0 });
    fields.push(FieldDesc { kind: FieldKind::Atom(ElemKind::U32), min_version: 0 });
    proof {
        assert(fields@ =~= spec_stamina_damage_data_desc().fields);
    }
    TypeDesc { name: "snow.enemy.EnemyConditionDamageData.StaminaDamageData", type_hash: 0x51000006, declared_version: 0, fields }
}

pub open spec fn spec_marionette_start_damage_data_desc() -> TypeDescV {
    TypeDescV {
        name: "snow.enemy.EnemyConditionDamageData.MarionetteStartDamageData"@,
        type_hash: 0x51000007u32,
        declared_version: 0u32,
        fields: seq![
            FieldDesc { kind: FieldKind::Atom(ElemKind::Object), min_version: 0u32 },
            FieldDesc { kind: FieldKind::Atom(ElemKind::Enum(ENUM_USE_DATA_TYPE)), min_version: 0u32 },
            FieldDesc { kind: FieldKind::Atom(ElemKind::F32Raw), min_version: 0u32 }
        ],
    }
}

/// Mounting condition parameters.
pub fn marionette_start_damage_data_desc() -> (r: TypeDesc)
    ensures
        r@ == spec_marionette_start_damage_data_desc(),
{
    let mut fields: Vec<FieldDesc> = Vec::new();

    fields.push(FieldDesc { kind: FieldKind::Atom(ElemKind::Object), min_version: 0 });
    fields.push(FieldDesc { kind: FieldKind::Atom(ElemKind::Enum(ENUM_USE_DATA_TYPE)), min_version: 0 });
    fields.push(FieldDesc { kind: FieldKind::Atom(ElemKind::F32Raw), min_version: 0 });
    proof {
        assert(fields@ =~= spec_marionette_start_damage_data_desc().fields);
    }
    TypeDesc { name: "snow.enemy.EnemyConditionDamageData.MarionetteStartDamageData", type_hash: 0x51000007, declared_version: 0, fields }
}

pub open spec fn spec_enemy_condition_damage_data_desc() -> TypeDescV {
    TypeDescV {
        name: "snow.enemy.EnemyConditionDamageData"@,
        type_hash: 0x51000008u32,
        declared_version: 0u32,
        fields: seq![
            FieldDesc { kind: FieldKind::Atom(ElemKind::Object), min_version: 0u32 },
            FieldDesc { kind: FieldKind::Atom(ElemKind::Object), min_version: 0u32 },
            FieldDesc { kind: FieldKind::Atom(ElemKind::Object), min_version: 0u32 },
            FieldDesc { kind: FieldKind::Atom(ElemKind::Object), min_version: 0u32 },
            FieldDesc { kind: FieldKind::Atom(ElemKind::Object), min_version: 0u32 },
            FieldDesc { kind: FieldKind::Atom(ElemKind::Object), min_version: 0u32 },
            FieldDesc { kind: FieldKind::Atom(ElemKind::Object), min_version: 0u32 },
            FieldDesc { kind: FieldKind::Atom(ElemKind::Object), min_version: 0u32 },
            FieldDesc { kind: FieldKind::Atom(ElemKind::Object), min_version: 0u32 },
            FieldDesc { kind: FieldKind::Atom(ElemKind::Object), min_version: 0u32 },
            FieldDesc { kind: FieldKind::Atom(ElemKind::Object), min_version: 0u32 },
            FieldDesc { kind: FieldKind::Atom(ElemKind::Object), min_version: 0u32 },
            FieldDesc { kind: FieldKind::Atom(ElemKind::Object), min_version: 0u32 },
            FieldDesc { kind: FieldKind::Atom(ElemKind::Object), min_version: 0u32 },
            FieldDesc { kind: FieldKind::Atom(ElemKind::Object), min_version: 0u32 },
            FieldDesc { kind: FieldKind::Atom(ElemKind::Object), min_version: 0u32 },
            FieldDesc { kind: FieldKind::Atom(ElemKind::Object), min_version: 0u32 },
            FieldDesc { kind: FieldKind::Atom(ElemKind::Object), min_version: 0u32 },
            FieldDesc { kind: FieldKind::Atom(ElemKind::Object), min_version: 0u32 },
            FieldDesc { kind: FieldKind::Atom(ElemKind::Object), min_version: 0u32 },
            FieldDesc { kind: FieldKind::Atom(ElemKind::Enum(ENUM_CONDITION_DAMAGE_USED)), min_version: 0u32 },
            FieldDesc { kind: FieldKind::Atom(ElemKind::Enum(ENUM_CONDITION_DAMAGE_USED)), min_version: 0u32 },
            FieldDesc { kind: FieldKind::Atom(ElemKind::Enum(ENUM_CONDITION_DAMAGE_USED)), min_version: 0u32 },
            FieldDesc { kind: FieldKind::Atom(ElemKind::Enum(ENUM_CONDITION_DAMAGE_USED)), min_version: 0u32 },
            FieldDesc { kind: FieldKind::Atom(ElemKind::Enum(ENUM_CONDITION_DAMAGE_USED)), min_version: 0u32 },
            FieldDesc { kind: FieldKind::Atom(ElemKind::Enum(ENUM_CONDITION_DAMAGE_USED)), min_version: 0u32 },
            FieldDesc { kind: FieldKind::Atom(ElemKind::Enum(ENUM_CONDITION_DAMAGE_USED)), min_version: 0u32 },
            FieldDesc { kind: FieldKind::Atom(ElemKind::Enum(ENUM_CONDITION_DAMAGE_USED)), min_version: 0u32 },
            FieldDesc { kind: FieldKind::Atom(ElemKind::Enum(ENUM_CONDITION_DAMAGE_USED)), min_version: 0u32 },
            FieldDesc { kind: FieldKind::Atom(ElemKind::Enum(ENUM_CONDITION_DAMAGE_USED)), min_version: 0u32 },
            FieldDesc { kind: FieldKind::Atom(ElemKind::Enum(ENUM_CONDITION_DAMAGE_USED)), min_version: 0u32 },
            FieldDesc { kind: FieldKind::Atom(ElemKind::Enum(ENUM_CONDITION_DAMAGE_USED)), min_version: 0u32 },
            FieldDesc { kind: FieldKind::Atom(ElemKind::Enum(ENUM_CONDITION_DAMAGE_USED)), min_version: 0u32 },
            FieldDesc { kind: FieldKind::Atom(ElemKind::Enum(ENUM_CONDITION_DAMAGE_USED)), min_version: 0u32 },
            FieldDesc { kind: FieldKind::Atom(ElemKind::Enum(ENUM_CONDITION_DAMAGE_USED)), min_version: 0u32 },
            FieldDesc { kind: FieldKind::Atom(ElemKind::Enum(ENUM_CONDITION_DAMAGE_USED)), min_version: 0u32 },
            FieldDesc { kind: FieldKind::Atom(ElemKind::Enum(ENUM_CONDITION_DAMAGE_USED)), min_version: 0u32 },
            FieldDesc { kind: FieldKind::Atom(ElemKind::Enum(ENUM_CONDITION_DAMAGE_USED)), min_version: 0u32 },
            FieldDesc { kind: FieldKind::Atom(ElemKind::Enum(ENUM_CONDITION_DAMAGE_USED)), min_version: 0u32 },
            FieldDesc { kind: FieldKind::Atom(ElemKind::Enum(ENUM_CONDITION_DAMAGE_USED)), min_version: 0u32 }
        ],
    }
}

/// The full per-monster condition block: twenty parameter records, then one
/// usage flag per condition.
pub fn enemy_condition_damage_data_desc() -> (r: TypeDesc)
    ensures
        r@ == spec_enemy_condition_damage_data_desc(),
{
    let mut fields: Vec<FieldDesc> = Vec::new();

    fields.push(FieldDesc { kind: FieldKind::Atom(ElemKind::Object), min_version: 0 });
    fields.push(FieldDesc { kind: FieldKind::Atom(ElemKind::Object), min_version: 0 });
    fields.push(FieldDesc { kind: FieldKind::Atom(ElemKind::Object), min_version: 0 });
    fields.push(FieldDesc { kind: FieldKind::Atom(ElemKind::Object), min_version: 0 });
    fields.push(FieldDesc { kind: FieldKind::Atom(ElemKind::Object), min_version: 0 });
    fields.push(FieldDesc { kind: FieldKind::Atom(ElemKind::Object), min_version: 0 });
    fields.push(FieldDesc { kind: FieldKind::Atom(ElemKind::Object), min_version: 0 });
    fields.push(FieldDesc { kind: FieldKind::Atom(ElemKind::Object), min_version: 0 });
    fields.push(FieldDesc { kind: FieldKind::Atom(ElemKind::Object), min_version: 0 });
    fields.push(FieldDesc { kind: FieldKind::Atom(ElemKind::Object), min_version: 0 });
    fields.push(FieldDesc { kind: FieldKind::Atom(ElemKind::Object), min_version: 0 });
    fields.push(FieldDesc { kind: FieldKind::Atom(ElemKind::Object), min_version: 0 });
    fields.push(FieldDesc { kind: FieldKind::Atom(ElemKind::Object), min_version: 0 });
    fields.push(FieldDesc { kind: FieldKind::Atom(ElemKind::Object), min_version: 0 });
    fields.push(FieldDesc { kind: FieldKind::Atom(ElemKind::Object), min_version: 0 });
    fields.push(FieldDesc { kind: FieldKind::Atom(ElemKind::Object), min_version: 0 });
    fields.push(FieldDesc { kind: FieldKind::Atom(ElemKind::Object), min_version: 0 });
    fields.push(FieldDesc { kind: FieldKind::Atom(ElemKind::Object), min_version: 0 });
    fields.push(FieldDesc { kind: FieldKind::Atom(ElemKind::Object), min_version: 0 });
    fields.push(FieldDesc { kind: FieldKind::Atom(ElemKind::Object), min_version: 0 });
    fields.push(FieldDesc { kind: FieldKind::Atom(ElemKind::Enum(ENUM_CONDITION_DAMAGE_USED)), min_version: 0 });
    fields.push(FieldDesc { kind: FieldKind::Atom(ElemKind::Enum(ENUM_CONDITION_DAMAGE_USED)), min_version: 0 });
    fields.push(FieldDesc { kind: FieldKind::Atom(ElemKind::Enum(ENUM_CONDITION_DAMAGE_USED)), min_version: 0 });
    fields.push(FieldDesc { kind: FieldKind::Atom(ElemKind::Enum(ENUM_CONDITION_DAMAGE_USED)), min_version: 0 });
    fields.push(FieldDesc { kind: FieldKind::Atom(ElemKind::Enum(ENUM_CONDITION_DAMAGE_USED)), min_version: 0 });
    fields.push(FieldDesc { kind: FieldKind::Atom(ElemKind::Enum(ENUM_CONDITION_DAMAGE_USED)), min_version: 0 });
    fields.push(FieldDesc { kind: FieldKind::Atom(ElemKind::Enum(ENUM_CONDITION_DAMAGE_USED)), min_version: 0 });
    fields.push(FieldDesc { kind: FieldKind::Atom(ElemKind::Enum(ENUM_CONDITION_DAMAGE_USED)), min_version: 0 });
    fields.push(FieldDesc { kind: FieldKind::Atom(ElemKind::Enum(ENUM_CONDITION_DAMAGE_USED)), min_version: 0 });
    fields.push(FieldDesc { kind: FieldKind::Atom(ElemKind::Enum(ENUM_CONDITION_DAMAGE_USED)), min_version: 0 });
    fields.push(FieldDesc { kind: FieldKind::Atom(ElemKind::Enum(ENUM_CONDITION_DAMAGE_USED)), min_version: 0 });
    fields.push(FieldDesc { kind: FieldKind::Atom(ElemKind::Enum(ENUM_CONDITION_DAMAGE_USED)), min_version: 0 });
    fields.push(FieldDesc { kind: FieldKind::Atom(ElemKind::Enum(ENUM_CONDITION_DAMAGE_USED)), min_version: 0 });
    fields.push(FieldDesc { kind: FieldKind::Atom(ElemKind::Enum(ENUM_CONDITION_DAMAGE_USED)), min_version: 0 });
    fields.push(FieldDesc { kind: FieldKind::Atom(ElemKind::Enum(ENUM_CONDITION_DAMAGE_USED)), min_version: 0 });
    fields.push(FieldDesc { kind: FieldKind::Atom(ElemKind::Enum(ENUM_CONDITION_DAMAGE_USED)), min_version: 0 });
    fields.push(FieldDesc { kind: FieldKind::Atom(ElemKind::Enum(ENUM_CONDITION_DAMAGE_USED)), min_version: 0 });
    fields.push(FieldDesc { kind: FieldKind::Atom(ElemKind::Enum(ENUM_CONDITION_DAMAGE_USED)), min_version: 0 });
    fields.push(FieldDesc { kind: FieldKind::Atom(ElemKind::Enum(ENUM_CONDITION_DAMAGE_USED)), min_version: 0 });
    fields.push(FieldDesc { kind: FieldKind::Atom(ElemKind::Enum(ENUM_CONDITION_DAMAGE_USED)), min_version: 0 });
    proof {
        assert(fields@ =~= spec_enemy_condition_damage_data_desc().fields);
    }
    TypeDesc { name: "snow.enemy.EnemyConditionDamageData", type_hash: 0x51000008, declared_version: 0, fields }
}

/// Build the registry holding every declaration of this module, one entry
/// per release hash. The declarations are mutually consistent, so the
/// build's eager validation succeeds.
#[verifier::rlimit(100)]
#[verifier::spinoff_prover]
pub fn sample_registry() -> (r: Result<Registry, RegistryError>)
    ensures
        r is Ok,
{
    let mut enums: Vec<EnumDesc> = Vec::new();
    enums.push(pl_armor_id_enum());
    enums.push(sexual_equipable_flag_enum());
    enums.push(equip_difficulty_group_enum());
    enums.push(pl_overwear_id_enum());
    enums.push(equipment_inventory_id_types_enum());
    enums.push(save_link_contents_enum());
    enums.push(recv_type_enum());
    enums.push(use_data_type_enum());
    enums.push(condition_damage_used_enum());
    let mut types: Vec<TypeDesc> = Vec::new();
    types.push(armor_base_user_data_param_desc());
    types.push(armor_base_user_data_desc());
    types.push(armor_series_user_data_param_desc());
    types.push(armor_series_user_data_desc());
    types.push(armor_product_user_data_param_desc());
    types.push(armor_product_user_data_desc());
    types.push(pl_overwear_base_user_data_param_desc());
    types.push(pl_overwear_base_user_data_desc());
    types.push(pl_overwear_product_user_data_param_desc());
    types.push(pl_overwear_product_user_data_desc());
    types.push(custom_buildup_result_desc(0x694F7865, 130000));
    types.push(custom_buildup_result_desc(0x6766A8A7, 110001));
    types.push(symbol_color_data_desc());
    types.push(equipment_inventory_data_desc(0x7D64033A, 140000));
    types.push(equipment_inventory_data_desc(0x64D86CBB, 130000));
    types.push(equipment_inventory_data_desc(0x52ACFD89, 120000));
    types.push(equipment_inventory_data_desc(0xF90B8D8C, 110001));
    types.push(equipment_inventory_data_desc(0xA13D184B, 100002));
    types.push(add_data_info_desc(0x3F93B141, 140000));
    types.push(add_data_info_desc(0x9B59BC74, 130000));
    types.push(add_data_info_desc(0x377D23C5, 120000));
    types.push(add_data_info_desc(0xFD14730E, 110001));
    types.push(add_data_info_desc(0xB32786A9, 100002));
    types.push(dlc_add_user_data_desc());
    types.push(dlc_data_desc(0xEE923A9A, 140000));
    types.push(dlc_data_desc(0x6883ECE4, 130000));
    types.push(dlc_data_desc(0x0305CBA9, 120000));
    types.push(dlc_data_desc(0x1A10B079, 110001));
    types.push(dlc_data_desc(0x7397A135, 100002));
    types.push(dlc_list_user_data_desc());
    types.push(stock_data_desc());
    types.push(condition_damage_data_base_desc());
    types.push(paralyze_damage_data_desc());
    types.push(flash_damage_lv_data_desc());
    types.push(flash_damage_data_desc());
    types.push(stamina_damage_data_desc());
    types.push(marionette_start_damage_data_desc());
    types.push(enemy_condition_damage_data_desc());
    Registry::build(types, enums)
}

} // verus!
