//! The daily quest panel's sub-opcodes.

use vstd::prelude::*;
use crate::packet::{Packet, le2, le4, twos};

verus! {

/// Sub-opcode: an error or status code.
pub const SUB_ERROR: u8 = 0;

/// Sub-opcode: a quest placed into one of the four slots.
pub const SUB_INIT: u8 = 1;

/// Sub-opcode: a quest completed.
pub const SUB_COMPLETE: u8 = 2;

/// The daily quest opcode.
pub const WIZ_DAILY_QUEST: u8 = 0xC7;

/// A quest placed into a slot: the slot, the quest, its NPC and its status.
pub fn build_init(quest_index: u8, quest_id: i32, npc_id: u16, status: u8) -> (r: Packet)
    ensures
        r.opcode == WIZ_DAILY_QUEST,
        r.data@ == seq![SUB_INIT, quest_index] + le4(twos(quest_id as int, 32)) + le2(npc_id as int) + seq![status],
{
    let mut pkt = Packet::new(WIZ_DAILY_QUEST);
    pkt.write_u8(SUB_INIT);
    pkt.write_u8(quest_index);
    pkt.write_i32(quest_id);
    pkt.write_u16(npc_id);
    pkt.write_u8(status);
    assert(pkt.data@ =~= seq![SUB_INIT, quest_index] + le4(twos(quest_id as int, 32)) + le2(npc_id as int) + seq![status]);
    pkt
}

/// A completed quest: the slot, the quest and a zero 16-bit field.
pub fn build_complete(slot_index: u8, quest_id: i32) -> (r: Packet)
    ensures
        r.opcode == WIZ_DAILY_QUEST,
        r.data@ == seq![SUB_COMPLETE, slot_index] + le4(twos(quest_id as int, 32)) + le2(0),
{
    let mut pkt = Packet::new(WIZ_DAILY_QUEST);
    pkt.write_u8(SUB_COMPLETE);
    pkt.write_u8(slot_index);
    pkt.write_i32(quest_id);
    pkt.write_u16(0);
    assert(pkt.data@ =~= seq![SUB_COMPLETE, slot_index] + le4(twos(quest_id as int, 32)) + le2(0));
    pkt
}

/// An error or status code, after a zero byte.
pub fn build_error(error_code: i32) -> (r: Packet)
    ensures
        r.opcode == WIZ_DAILY_QUEST,
        r.data@ == seq![SUB_ERROR, 0u8] + le4(twos(error_code as int, 32)),
{
    let mut pkt = Packet::new(WIZ_DAILY_QUEST);
    pkt.write_u8(SUB_ERROR);
    pkt.write_u8(0);
    pkt.write_i32(error_code);
    assert(pkt.data@ =~= seq![SUB_ERROR, 0u8] + le4(twos(error_code as int, 32)));
    pkt
}

} // verus!
