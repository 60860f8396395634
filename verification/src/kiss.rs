//! The kiss emote shown between a player and an event NPC.

use vstd::prelude::*;
use crate::packet::{Packet, le2, le4, twos};
use crate::packet::PacketReader;
use crate::request::{field_i16, take_i16};

verus! {

/// The kiss emote opcode.
pub const WIZ_KISS: u8 = 0x66;

/// The emote: the player's id and the event NPC's id.
pub fn build_kiss_packet(player_id: u32, event_npc_id: i16) -> (r: Packet)
    ensures
        r.opcode == WIZ_KISS,
        r.data@ == le4(player_id as int) + le2(twos(event_npc_id as int, 16)),
{
    let mut pkt = Packet::new(WIZ_KISS);
    pkt.write_u32(player_id);
    pkt.write_i16(event_npc_id);
    assert(pkt.data@ =~= le4(player_id as int) + le2(twos(event_npc_id as int, 16)));
    pkt
}


/// The event NPC a kiss request names: its first two bytes as a signed
/// number, zero when the request is shorter.
pub fn parse_kiss_target(data: &[u8]) -> (r: i16)
    ensures
        r == field_i16(data@, 0).0,
{
    let mut rd = PacketReader::new(data);
    take_i16(&mut rd)
}

} // verus!
