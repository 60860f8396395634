//! Destroying an item from the inventory: which slot a request names,
//! when it is refused, and what a granted request clears.

use vstd::prelude::*;
use crate::packet::PacketReader;
use crate::request::{field_u8, field_u32, take_u8, take_u32};
use crate::packet::Packet;
use crate::item_repair::repair_target;
use crate::world::{
    ItemSlot, spec_empty_slot, SLOT_MAX, HAVE_MAX, INVENTORY_COSP, ITEM_FLAG_RENTED,
    ITEM_FLAG_SEALED, ZONE_CHAOS_DUNGEON,
};

verus! {

/// The item destruction opcode.
pub const WIZ_ITEM_REMOVE: u8 = 0x3F;

/// The inventory index that an item type and position name: bag slots for
/// types 0 and 2, equipment slots for type 1, and the magic bag slots
/// (eight past the start of the cospre slots) for type 3.
pub open spec fn remove_target(item_type: u8, pos: u8) -> Option<usize> {
    if (item_type == 0 || item_type == 2) && (pos as int) < HAVE_MAX {
        Some((SLOT_MAX + pos) as usize)
    } else if item_type == 1 && (pos as int) < SLOT_MAX {
        Some(pos as usize)
    } else if item_type == 3 && (pos as int) < SLOT_MAX {
        Some((INVENTORY_COSP + 8 + pos) as usize)
    } else {
        None
    }
}

/// Destroying and repairing name the same slots: an equipped slot
/// (type 1) and a bag slot (types 0 and 2) reach the inventory index that a
/// repair of that slot reaches. Two different slots of these kinds never
/// reach the same index, and every index lies within the equipment and the
/// bag; a cospre slot (type 3) lies beyond them.
pub proof fn lemma_remove_targets(t1: u8, p1: u8, t2: u8, p2: u8)
    ensures
        remove_target(1, p1) == repair_target(1, p1),
        remove_target(0, p1) == repair_target(2, p1),
        remove_target(2, p1) == repair_target(2, p1),
        (t1 == 0 || t1 == 1) && (t2 == 0 || t2 == 1) && remove_target(t1, p1) is Some && remove_target(t1, p1)
            == remove_target(t2, p2) ==> t1 == t2 && p1 == p2,
        t1 <= 2 && remove_target(t1, p1) is Some ==> remove_target(t1, p1)->0 < SLOT_MAX + HAVE_MAX,
        remove_target(3, p1) is Some ==> remove_target(3, p1)->0 >= SLOT_MAX + HAVE_MAX,
{
}

/// Whether a living player's request to destroy `item_id` at the named
/// slot is granted: not while mining or fishing, not in the Chaos Dungeon,
/// only for a known item that lies in the named slot and is neither sealed
/// nor rented.
pub open spec fn remove_granted(
    inv: Seq<ItemSlot>,
    busy: bool,
    zone: u16,
    item_known: bool,
    item_type: u8,
    pos: u8,
    item_id: u32,
) -> bool {
    &&& !busy
    &&& zone != ZONE_CHAOS_DUNGEON
    &&& item_known
    &&& remove_target(item_type, pos) matches Some(index)
    &&& index < inv.len()
    &&& inv[index as int].item_id == item_id
    &&& inv[index as int].flag != ITEM_FLAG_SEALED
    &&& inv[index as int].flag != ITEM_FLAG_RENTED
}

/// The inventory index named by an item type and a position.
pub fn get_remove_target(item_type: u8, pos: u8) -> (r: Option<usize>)
    ensures
        r == remove_target(item_type, pos),
{
    if (item_type == 0 || item_type == 2) && (pos as usize) < HAVE_MAX {
        Some(SLOT_MAX + pos as usize)
    } else if item_type == 1 && (pos as usize) < SLOT_MAX {
        Some(pos as usize)
    } else if item_type == 3 && (pos as usize) < SLOT_MAX {
        Some(INVENTORY_COSP + 8 + pos as usize)
    } else {
        None
    }
}

/// Handles a request to destroy an item: `busy` says that the player is
/// mining or fishing, `zone` is the player's zone and `item_known` whether
/// the item table holds `item_id`. When granted the named slot is emptied
/// and `true` returned; otherwise nothing changes and `false` is returned.
pub fn remove_item(
    inv: &mut Vec<ItemSlot>,
    busy: bool,
    zone: u16,
    item_known: bool,
    item_type: u8,
    pos: u8,
    item_id: u32,
) -> (r: bool)
    ensures
        r == remove_granted(old(inv)@, busy, zone, item_known, item_type, pos, item_id),
        r ==> final(inv)@ == old(inv)@.update(
            remove_target(item_type, pos)->0 as int,
            spec_empty_slot(),
        ),
        !r ==> final(inv)@ == old(inv)@,
{
    if busy || zone == ZONE_CHAOS_DUNGEON || !item_known {
        return false;
    }
    let index = match get_remove_target(item_type, pos) {
        Some(i) => i,
        None => {
            return false;
        },
    };
    if index >= inv.len() {
        return false;
    }
    let slot = inv[index];
    if slot.item_id != item_id || slot.flag == ITEM_FLAG_SEALED || slot.flag == ITEM_FLAG_RENTED {
        return false;
    }
    inv.set(index, ItemSlot::empty());
    true
}

/// Copies the item ids of the equipment slots into the character's record
/// of equipped items; an entry past the end of the inventory keeps its value.
pub fn refresh_equipped(equipped: &mut [u32; 14], inv: &Vec<ItemSlot>)
    ensures
        forall|s: int|
            0 <= s < 14 ==> #[trigger] final(equipped)@[s] == if s < inv@.len() {
                inv@[s].item_id
            } else {
                old(equipped)@[s]
            },
{
    let mut s: usize = 0;
    while s < 14
        invariant
            s <= 14,
            equipped@.len() == 14,
            forall|t: int|
                0 <= t < 14 ==> #[trigger] equipped@[t] == if t < s && t < inv@.len() {
                    inv@[t].item_id
                } else {
                    old(equipped)@[t]
                },
        decreases 14 - s,
    {
        if s < inv.len() {
            equipped[s] = inv[s].item_id;
        }
        s = s + 1;
    }
}

/// The answer to a destruction request: one when the item was destroyed,
/// zero otherwise.
pub fn build_remove_result(removed: bool) -> (r: Packet)
    ensures
        r.opcode == WIZ_ITEM_REMOVE,
        r.data@ == seq![if removed {
            1u8
        } else {
            0u8
        }],
{
    let mut pkt = Packet::new(WIZ_ITEM_REMOVE);
    pkt.write_u8(if removed { 1 } else { 0 });
    assert(pkt.data@ =~= seq![if removed {
        1u8
    } else {
        0u8
    }]);
    pkt
}

/// A destruction request as the client sends it.
#[derive(Debug, Clone, Copy, PartialEq, Eq, Structural)]
pub struct RemoveRequest {
    pub item_type: u8,
    pub pos: u8,
    pub item_id: u32,
}

/// The fields of a destruction request: item type, position and item id,
/// each zero when the request is too short to hold it.
pub open spec fn remove_request_of(d: Seq<u8>) -> RemoveRequest {
    let (item_type, p1) = field_u8(d, 0);
    let (pos, p2) = field_u8(d, p1);
    let (item_id, _p3) = field_u32(d, p2);
    RemoveRequest { item_type, pos, item_id }
}

/// Reads a destruction request.
pub fn parse_remove_request(data: &[u8]) -> (r: RemoveRequest)
    ensures
        r == remove_request_of(data@),
{
    let mut rd = PacketReader::new(data);
    let item_type = take_u8(&mut rd);
    let pos = take_u8(&mut rd);
    let item_id = take_u32(&mut rd);
    RemoveRequest { item_type, pos, item_id }
}

} // verus!
