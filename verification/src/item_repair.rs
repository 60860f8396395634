//! Item repair at a tinker or merchant NPC: which requests are answered in
//! silence, which are refused, and what a granted repair changes.
//!
//! The price of a repair is computed by the network layer in floating
//! point; this module decides everything around it in integers.

use vstd::prelude::*;
use crate::world::{ItemSlot, SLOT_MAX, HAVE_MAX};
use crate::packet::PacketReader;
use crate::request::{field_u8, field_u32, take_u8, take_u32, lemma_field_u8_written, lemma_field_u32_written};
use crate::packet::{Packet, le4};

verus! {

/// The item repair opcode.
pub const WIZ_ITEM_REPAIR: u8 = 0x3B;

/// NPC type of a merchant.
pub const NPC_MERCHANT: u8 = 21;

/// NPC type of a tinker.
pub const NPC_TINKER: u8 = 22;

/// Sell type of items that can never be repaired.
pub const SELL_TYPE_NO_REPAIRS: i32 = 2;

/// Item kind of unique items (scrolls), which are never repaired.
pub const ITEM_KIND_UNIQUE: i32 = 255;

/// The table entry of the item to repair, as far as repairing reads it.
/// A field the table leaves empty reads as zero.
#[derive(Debug, Clone, Copy, PartialEq, Eq, Structural)]
pub struct RepairItemDef {
    pub sell_price: Option<i32>,
    pub kind: Option<i32>,
    pub duration: Option<i16>,
    pub buy_price: Option<i32>,
}

/// The NPC that was asked, as the world sees it.
#[derive(Debug, Clone, Copy, PartialEq, Eq, Structural)]
pub struct RepairNpc {
    /// The NPC exists and stands within reach of the player.
    pub in_range: bool,
    /// The NPC is dead.
    pub dead: bool,
    /// The NPC's type, when its template is known.
    pub npc_type: Option<u8>,
}

/// What to do with a repair request.
#[derive(Debug, Clone, Copy, PartialEq, Eq, Structural)]
pub enum RepairDecision {
    /// Answer nothing.
    Silent,
    /// Answer with the failure packet.
    Fail,
    /// Repair the item at inventory `index` up to `max_durability`;
    /// `quantity` durability points are missing.
    Repair { index: usize, max_durability: i16, quantity: i32 },
}

/// A present optional value, or zero.
pub open spec fn or_zero_i32(v: Option<i32>) -> i32 {
    match v {
        Some(x) => x,
        None => 0,
    }
}

/// A present optional value, or zero.
pub open spec fn or_zero_i16(v: Option<i16>) -> i16 {
    match v {
        Some(x) => x,
        None => 0,
    }
}

/// The inventory index that a position type and slot name: equipment slots
/// for type 1, bag slots (after the equipment) for type 2.
pub open spec fn repair_target(pos_type: u8, slot: u8) -> Option<usize> {
    if pos_type == 1 && (slot as int) < SLOT_MAX {
        Some(slot as usize)
    } else if pos_type == 2 && (slot as int) < HAVE_MAX {
        Some((SLOT_MAX + slot) as usize)
    } else {
        None
    }
}

/// Whether an NPC of this type repairs items.
pub open spec fn repairs_items(npc_type: u8) -> bool {
    npc_type == NPC_TINKER || npc_type == NPC_MERCHANT
}

/// The decision on a repair request by a living player.
pub open spec fn repair_decision(
    npc: RepairNpc,
    pos_type: u8,
    slot: u8,
    inv: Seq<ItemSlot>,
    item_id: u32,
    def: Option<RepairItemDef>,
) -> RepairDecision {
    if !npc.in_range || npc.dead {
        RepairDecision::Silent
    } else if !(npc.npc_type matches Some(t) && repairs_items(t)) {
        RepairDecision::Fail
    } else {
        match repair_target(pos_type, slot) {
            None => RepairDecision::Fail,
            Some(index) => {
                if index >= inv.len() || inv[index as int].item_id != item_id {
                    RepairDecision::Fail
                } else {
                    match def {
                        None => RepairDecision::Fail,
                        Some(d) => {
                            let max = or_zero_i16(d.duration);
                            let quantity = max - inv[index as int].durability;
                            if or_zero_i32(d.sell_price) == SELL_TYPE_NO_REPAIRS || or_zero_i32(d.kind)
                                == ITEM_KIND_UNIQUE || max <= 1 || quantity <= 0 {
                                RepairDecision::Fail
                            } else {
                                RepairDecision::Repair {
                                    index,
                                    max_durability: max,
                                    quantity: quantity as i32,
                                }
                            }
                        }
                    }
                }
            }
        }
    }
}

/// The inventory index named by a position type and a slot.
pub fn get_repair_target(pos_type: u8, slot: u8) -> (r: Option<usize>)
    ensures
        r == repair_target(pos_type, slot),
{
    if pos_type == 1 && (slot as usize) < SLOT_MAX {
        Some(slot as usize)
    } else if pos_type == 2 && (slot as usize) < HAVE_MAX {
        Some(SLOT_MAX + slot as usize)
    } else {
        None
    }
}

/// Decides a repair request of a living player: silence when the NPC is
/// out of reach, gone or dead; failure when the NPC repairs nothing, the
/// slot is out of range or holds another item, the item is unknown, never
/// repaired (no-repair sell type, unique kind, durability of at most one)
/// or not damaged; otherwise the repair to full durability.
pub fn check_repair(
    npc: RepairNpc,
    pos_type: u8,
    slot: u8,
    inv: &Vec<ItemSlot>,
    item_id: u32,
    def: Option<RepairItemDef>,
) -> (r: RepairDecision)
    ensures
        r == repair_decision(npc, pos_type, slot, inv@, item_id, def),
{
    if !npc.in_range || npc.dead {
        return RepairDecision::Silent;
    }
    match npc.npc_type {
        Some(t) => {
            if t != NPC_TINKER && t != NPC_MERCHANT {
                return RepairDecision::Fail;
            }
        },
        None => {
            return RepairDecision::Fail;
        },
    }
    let index = match get_repair_target(pos_type, slot) {
        Some(i) => i,
        None => {
            return RepairDecision::Fail;
        },
    };
    if index >= inv.len() || inv[index].item_id != item_id {
        return RepairDecision::Fail;
    }
    let d = match def {
        Some(d) => d,
        None => {
            return RepairDecision::Fail;
        },
    };
    let sell_price: i32 = match d.sell_price {
        Some(x) => x,
        None => 0,
    };
    let kind: i32 = match d.kind {
        Some(x) => x,
        None => 0,
    };
    let max: i16 = match d.duration {
        Some(x) => x,
        None => 0,
    };
    if sell_price == SELL_TYPE_NO_REPAIRS || kind == ITEM_KIND_UNIQUE || max <= 1 {
        return RepairDecision::Fail;
    }
    let quantity: i32 = max as i32 - inv[index].durability as i32;
    if quantity <= 0 {
        return RepairDecision::Fail;
    }
    RepairDecision::Repair { index, max_durability: max, quantity }
}

/// A price after a premium discount given in percent; no discount when the
/// percentage is zero.
pub open spec fn discounted(cost: int, percent: int) -> int {
    if percent > 0 {
        cost * percent / 100
    } else {
        cost
    }
}

/// A premium discount of at most 100 percent never raises the price, a
/// larger percentage to pay never gives a lower price, and 100 percent (or
/// none) leaves it as it is.
pub proof fn lemma_discount_never_raises(cost: int, p: int, q: int)
    requires
        0 <= cost,
    ensures
        0 <= p <= 100 ==> 0 <= discounted(cost, p) <= cost,
        discounted(cost, 100) == cost,
        discounted(cost, 0) == cost,
        0 < p <= q ==> discounted(cost, p) <= discounted(cost, q),
{
    if 0 < p <= 100 {
        assert(cost * p <= cost * 100) by (nonlinear_arith)
            requires
                0 <= cost,
                p <= 100,
        ;
        assert(0 <= cost * p) by (nonlinear_arith)
            requires
                0 <= cost,
                0 < p,
        ;
    }
    if 0 < p <= q {
        assert(cost * p <= cost * q) by (nonlinear_arith)
            requires
                0 <= cost,
                p <= q,
        ;
        vstd::arithmetic::div_mod::lemma_div_is_ordered(cost * p, cost * q, 100);
    }
}

/// The repair price after the player's and then the clan's premium repair
/// discounts (each a percentage to pay, zero for none).
pub fn repair_price(cost: u32, personal_percent: u32, clan_percent: u32) -> (r: u32)
    requires
        cost * personal_percent <= u32::MAX,
        discounted(cost as int, personal_percent as int) * clan_percent <= u32::MAX,
    ensures
        r == discounted(discounted(cost as int, personal_percent as int), clan_percent as int),
{
    let mut price = cost;
    if personal_percent > 0 {
        price = price * personal_percent / 100;
    }
    if clan_percent > 0 {
        price = price * clan_percent / 100;
    }
    price
}

/// Brings the item at `index` back to `max_durability`; every other slot and
/// every other field stays as it was.
pub fn apply_repair(inv: &mut Vec<ItemSlot>, index: usize, max_durability: i16)
    ensures
        final(inv)@.len() == old(inv)@.len(),
        index < old(inv)@.len() ==> final(inv)@ == old(inv)@.update(
            index as int,
            ItemSlot { durability: max_durability, ..old(inv)@[index as int] },
        ),
        index >= old(inv)@.len() ==> final(inv)@ == old(inv)@,
{
    if index < inv.len() {
        let mut s = inv[index];
        s.durability = max_durability;
        inv.set(index, s);
    }
}

/// A repaired item is at full durability, so asking again for the same
/// repair is refused.
pub proof fn lemma_repair_not_repeated(
    npc: RepairNpc,
    pos_type: u8,
    slot: u8,
    inv: Seq<ItemSlot>,
    item_id: u32,
    def: Option<RepairItemDef>,
)
    requires
        repair_decision(npc, pos_type, slot, inv, item_id, def) is Repair,
    ensures
        ({
            let d = repair_decision(npc, pos_type, slot, inv, item_id, def);
            let index = d->index;
            let repaired = inv.update(
                index as int,
                ItemSlot { durability: d->max_durability, ..inv[index as int] },
            );
            repair_decision(npc, pos_type, slot, repaired, item_id, def) == RepairDecision::Fail
        }),
{
}

/// The answer to a repair request: one for a repair, zero for a failure,
/// then the player's gold.
pub fn build_repair_result(repaired: bool, gold: u32) -> (r: Packet)
    ensures
        r.opcode == WIZ_ITEM_REPAIR,
        r.data@ == seq![if repaired {
            1u8
        } else {
            0u8
        }] + le4(gold as int),
{
    let mut pkt = Packet::new(WIZ_ITEM_REPAIR);
    pkt.write_u8(if repaired { 1 } else { 0 });
    pkt.write_u32(gold);
    assert(pkt.data@ =~= seq![if repaired {
        1u8
    } else {
        0u8
    }] + le4(gold as int));
    pkt
}

/// A repair request as the client sends it.
#[derive(Debug, Clone, Copy, PartialEq, Eq, Structural)]
pub struct RepairRequest {
    pub pos_type: u8,
    pub slot: u8,
    pub npc_id: u32,
    pub item_id: u32,
}

/// The fields of a repair request: position type, slot, NPC id and item id,
/// each zero when the request is too short to hold it.
pub open spec fn repair_request_of(d: Seq<u8>) -> RepairRequest {
    let (pos_type, p1) = field_u8(d, 0);
    let (slot, p2) = field_u8(d, p1);
    let (npc_id, p3) = field_u32(d, p2);
    let (item_id, _p4) = field_u32(d, p3);
    RepairRequest { pos_type, slot, npc_id, item_id }
}

/// Reads a repair request.
pub fn parse_repair_request(data: &[u8]) -> (r: RepairRequest)
    ensures
        r == repair_request_of(data@),
{
    let mut rd = PacketReader::new(data);
    let pos_type = take_u8(&mut rd);
    let slot = take_u8(&mut rd);
    let npc_id = take_u32(&mut rd);
    let item_id = take_u32(&mut rd);
    RepairRequest { pos_type, slot, npc_id, item_id }
}

/// A repair request read from the bytes a client writes for it (position
/// type, slot, NPC id, item id) has the fields written.
pub proof fn lemma_repair_request_round_trip(r: RepairRequest)
    ensures
        repair_request_of(seq![r.pos_type, r.slot] + le4(r.npc_id as int) + le4(r.item_id as int)) == r,
{
    let d = seq![r.pos_type, r.slot] + le4(r.npc_id as int) + le4(r.item_id as int);
    lemma_field_u8_written(Seq::empty(), r.pos_type, d.subrange(1, d.len() as int));
    assert(Seq::<u8>::empty() + seq![r.pos_type] + d.subrange(1, d.len() as int) =~= d);
    lemma_field_u8_written(seq![r.pos_type], r.slot, d.subrange(2, d.len() as int));
    assert(seq![r.pos_type] + seq![r.slot] + d.subrange(2, d.len() as int) =~= d);
    lemma_field_u32_written(seq![r.pos_type, r.slot], r.npc_id, le4(r.item_id as int));
    lemma_field_u32_written(seq![r.pos_type, r.slot] + le4(r.npc_id as int), r.item_id, Seq::empty());
    assert(seq![r.pos_type, r.slot] + le4(r.npc_id as int) + le4(r.item_id as int) + Seq::<u8>::empty() =~= d);
}

} // verus!
