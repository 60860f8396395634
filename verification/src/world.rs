//! World-wide identifiers shared by the event handlers: zones, nations,
//! races, class codes and virtual reward items.

use vstd::prelude::*;

verus! {

/// Moradon, the neutral town.
pub const ZONE_MORADON: u16 = 21;

/// Ardream, a rivalry zone.
pub const ZONE_ARDREAM: u16 = 29;

/// Ronark Land, a rivalry zone.
pub const ZONE_RONARK_LAND: u16 = 31;

/// Ronark Land Base, a rivalry zone.
pub const ZONE_RONARK_LAND_BASE: u16 = 32;

/// The Forgotten Temple (monster challenge) zone.
pub const ZONE_FORGOTTEN_TEMPLE: u16 = 55;

/// The Chaos Dungeon zone.
pub const ZONE_CHAOS_DUNGEON: u16 = 85;

/// The Dungeon Defence (Full Moon Rift) zone.
pub const ZONE_DUNGEON_DEFENCE: u16 = 89;

/// Karus nation.
pub const NATION_KARUS: u8 = 1;

/// El Morad nation.
pub const NATION_ELMORAD: u8 = 2;

/// Karus large race (warriors).
pub const KARUS_BIG: u8 = 1;

/// Karus middle race (rogues, priests).
pub const KARUS_MIDDLE: u8 = 2;

/// Karus small race (mages).
pub const KARUS_SMALL: u8 = 3;

/// Karus female race.
pub const KARUS_WOMAN: u8 = 4;

/// Karus Kurian race.
pub const KURIAN: u8 = 6;

/// El Morad barbarian race.
pub const BABARIAN: u8 = 11;

/// El Morad male race.
pub const ELMORAD_MAN: u8 = 12;

/// El Morad female race.
pub const ELMORAD_WOMAN: u8 = 13;

/// El Morad Porutu race.
pub const PORUTU: u8 = 14;

/// Virtual reward item: gold.
pub const ITEM_GOLD: u32 = 900_000_000;

/// Virtual reward item: experience.
pub const ITEM_EXP: u32 = 900_001_000;

/// Virtual reward item: national points.
pub const ITEM_COUNT: u32 = 900_002_000;

/// Virtual reward item: a random item from a pool.
pub const ITEM_RANDOM: u32 = 900_004_000;

/// Number of equipment slots at the front of an inventory.
pub const SLOT_MAX: usize = 14;

/// Number of bag slots that follow the equipment slots.
pub const HAVE_MAX: usize = 28;

/// Inventory index where the cospre (costume and magic bag) slots begin.
pub const INVENTORY_COSP: usize = 42;

/// Item flag: no restriction.
pub const ITEM_FLAG_NONE: u8 = 0;

/// Item flag: the item is rented.
pub const ITEM_FLAG_RENTED: u8 = 1;

/// Item flag: the item is sealed.
pub const ITEM_FLAG_SEALED: u8 = 4;

/// One inventory slot: the item held there, how many of it, and its
/// durability, flags, serial number and expiry time.
#[derive(Debug, Clone, Copy, PartialEq, Eq, Structural)]
pub struct ItemSlot {
    pub item_id: u32,
    pub durability: i16,
    pub count: u16,
    pub flag: u8,
    pub original_flag: u8,
    pub serial_num: u64,
    pub expire_time: u32,
}

/// The empty inventory slot.
pub open spec fn spec_empty_slot() -> ItemSlot {
    ItemSlot {
        item_id: 0,
        durability: 0,
        count: 0,
        flag: 0,
        original_flag: 0,
        serial_num: 0,
        expire_time: 0,
    }
}

impl ItemSlot {
    /// The empty inventory slot.
    pub fn empty() -> (r: ItemSlot)
        ensures
            r == spec_empty_slot(),
    {
        ItemSlot {
            item_id: 0,
            durability: 0,
            count: 0,
            flag: 0,
            original_flag: 0,
            serial_num: 0,
            expire_time: 0,
        }
    }

    /// A slot holding `count` of `item_id`, with every other field zero.
    pub fn holding(item_id: u32, count: u16) -> (r: ItemSlot)
        ensures
            r == (ItemSlot { item_id, count, ..spec_empty_slot() }),
    {
        ItemSlot { item_id, durability: 0, count, flag: 0, original_flag: 0, serial_num: 0, expire_time: 0 }
    }
}

/// Some equipment slot (the first `SLOT_MAX` slots) holds an item.
pub open spec fn spec_wears_equipment(inv: Seq<ItemSlot>) -> bool {
    exists|i: int| 0 <= i < SLOT_MAX && i < inv.len() && #[trigger] inv[i].item_id != 0
}

/// Some bag slot (after the equipment slots) holds at least one `item_id`.
pub open spec fn spec_bag_has_item(inv: Seq<ItemSlot>, item_id: u32) -> bool {
    exists|i: int|
        SLOT_MAX <= i < SLOT_MAX + HAVE_MAX && i < inv.len() && #[trigger] inv[i].item_id
            == item_id && inv[i].count > 0
}

/// Whether any equipment slot holds an item.
pub fn wears_equipment(inv: &Vec<ItemSlot>) -> (r: bool)
    ensures
        r == spec_wears_equipment(inv@),
{
    let mut i: usize = 0;
    while i < SLOT_MAX && i < inv.len()
        invariant
            i <= SLOT_MAX,
            forall|j: int| 0 <= j < i && j < inv@.len() ==> #[trigger] inv@[j].item_id == 0,
        decreases SLOT_MAX - i,
    {
        if inv[i].item_id != 0 {
            return true;
        }
        i = i + 1;
    }
    false
}

/// Whether a bag slot holds at least one `item_id`.
pub fn has_item_in_inventory(inv: &Vec<ItemSlot>, item_id: u32) -> (r: bool)
    ensures
        r == spec_bag_has_item(inv@, item_id),
{
    let mut i: usize = SLOT_MAX;
    while i < SLOT_MAX + HAVE_MAX && i < inv.len()
        invariant
            SLOT_MAX <= i <= SLOT_MAX + HAVE_MAX,
            forall|j: int|
                SLOT_MAX <= j < i && j < inv@.len() ==> !(#[trigger] inv@[j].item_id == item_id
                    && inv@[j].count > 0),
        decreases SLOT_MAX + HAVE_MAX - i,
    {
        if inv[i].item_id == item_id && inv[i].count > 0 {
            return true;
        }
        i = i + 1;
    }
    false
}

} // verus!
