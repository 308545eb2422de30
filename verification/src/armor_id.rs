//! Typed armor piece identifiers.
//!
//! `PlArmorId` is the typed reading of the armor identifier enumeration:
//! reserved singleton values, and one sub-range per equipment slot whose
//! offset is the piece index. `from_raw` decodes a raw identifier exactly as
//! the registry's arm table does, arm for arm.

use crate::records::spec_pl_armor_id_enum;
use crate::registry::spec_find_arm;
use vstd::prelude::*;

verus! {

/// An armor piece identifier: a reserved singleton, or a slot with the
/// piece index inside that slot's sub-range.
#[derive(Debug, Clone, Copy, PartialEq, Eq, Hash, Structural)]
pub enum PlArmorId {
    /// The reserved zero entry of armor tables.
    TableNone,
    /// The reserved "no armor" value.
    Absent,
    /// The reserved "no armor" value of equipment packs.
    NoneForPlEquipPack,
    /// The reserved marker of pieces swapped by the expansion.
    ChangedEx,
    Head(u32),
    Chest(u32),
    Arm(u32),
    Waist(u32),
    Leg(u32),
}

/// What decoding a raw armor identifier yields: the singleton or the slot
/// containing it, with the offset inside the slot's sub-range, or nothing
/// for a value no declared arm contains.
pub open spec fn spec_pl_armor_id_from_raw(raw: u32) -> Option<PlArmorId> {
    if raw == 0 {
        Some(PlArmorId::TableNone)
    } else if raw == 0x0C000000 {
        Some(PlArmorId::Absent)
    } else if raw == 0x0000FFFF {
        Some(PlArmorId::NoneForPlEquipPack)
    } else if raw == 0x00010001 {
        Some(PlArmorId::ChangedEx)
    } else if 0x0C100000 <= raw <= 0x0C10FFFF {
        Some(PlArmorId::Head((raw - 0x0C100000) as u32))
    } else if 0x0C200000 <= raw <= 0x0C20FFFF {
        Some(PlArmorId::Chest((raw - 0x0C200000) as u32))
    } else if 0x0C300000 <= raw <= 0x0C30FFFF {
        Some(PlArmorId::Arm((raw - 0x0C300000) as u32))
    } else if 0x0C400000 <= raw <= 0x0C40FFFF {
        Some(PlArmorId::Waist((raw - 0x0C400000) as u32))
    } else if 0x0C500000 <= raw <= 0x0C50FFFF {
        Some(PlArmorId::Leg((raw - 0x0C500000) as u32))
    } else {
        None
    }
}

/// The arm index of an identifier in the registered enumeration, in
/// declaration order, and its offset inside that arm.
pub open spec fn spec_pl_armor_id_arm(a: PlArmorId) -> (int, u64) {
    match a {
        PlArmorId::TableNone => (0, 0),
        PlArmorId::Absent => (1, 0),
        PlArmorId::NoneForPlEquipPack => (2, 0),
        PlArmorId::ChangedEx => (3, 0),
        PlArmorId::Head(x) => (4, x as u64),
        PlArmorId::Chest(x) => (5, x as u64),
        PlArmorId::Arm(x) => (6, x as u64),
        PlArmorId::Waist(x) => (7, x as u64),
        PlArmorId::Leg(x) => (8, x as u64),
    }
}

/// The icon slot of an identifier: one slot per equipment kind, the shared
/// fallback slot for everything reserved.
pub open spec fn spec_icon_index(a: PlArmorId) -> u32 {
    match a {
        PlArmorId::Head(_) => 0,
        PlArmorId::Chest(_) => 1,
        PlArmorId::Arm(_) => 2,
        PlArmorId::Waist(_) => 3,
        PlArmorId::Leg(_) => 4,
        _ => 6,
    }
}

impl PlArmorId {
    /// Decode a raw identifier, if some declared arm contains it.
    pub fn from_raw(raw: u32) -> (r: Option<PlArmorId>)
        ensures
            r == spec_pl_armor_id_from_raw(raw),
    {
        if raw == 0 {
            Some(PlArmorId::TableNone)
        } else if raw == 0x0C000000 {
            Some(PlArmorId::Absent)
        } else if raw == 0x0000FFFF {
            Some(PlArmorId::NoneForPlEquipPack)
        } else if raw == 0x00010001 {
            Some(PlArmorId::ChangedEx)
        } else if 0x0C100000 <= raw && raw <= 0x0C10FFFF {
            Some(PlArmorId::Head(raw - 0x0C100000))
        } else if 0x0C200000 <= raw && raw <= 0x0C20FFFF {
            Some(PlArmorId::Chest(raw - 0x0C200000))
        } else if 0x0C300000 <= raw && raw <= 0x0C30FFFF {
            Some(PlArmorId::Arm(raw - 0x0C300000))
        } else if 0x0C400000 <= raw && raw <= 0x0C40FFFF {
            Some(PlArmorId::Waist(raw - 0x0C400000))
        } else if 0x0C500000 <= raw && raw <= 0x0C50FFFF {
            Some(PlArmorId::Leg(raw - 0x0C500000))
        } else {
            None
        }
    }

    /// The icon slot shown for this identifier.
    pub fn icon_index(self) -> (r: u32)
        ensures
            r == spec_icon_index(self),
    {
        match self {
            PlArmorId::Head(_) => 0,
            PlArmorId::Chest(_) => 1,
            PlArmorId::Arm(_) => 2,
            PlArmorId::Waist(_) => 3,
            PlArmorId::Leg(_) => 4,
            _ => 6,
        }
    }
}

/// The typed reading agrees with the registered arm table, raw value for
/// raw value: both fail on the same inputs, and a decoded identifier sits
/// in exactly the arm the table finds, at the same offset.
pub proof fn lemma_from_raw_matches_arm_table(raw: u32)
    ensures
        match spec_pl_armor_id_from_raw(raw) {
            Some(a) => spec_find_arm(spec_pl_armor_id_enum().arms, raw as u64, 0) == Some(
                spec_pl_armor_id_arm(a),
            ),
            None => spec_find_arm(spec_pl_armor_id_enum().arms, raw as u64, 0) is None,
        },
{
    reveal_with_fuel(spec_find_arm, 10);
}

} // verus!
