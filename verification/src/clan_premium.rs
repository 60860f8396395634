//! Clan premium status notices.

use vstd::prelude::*;
use crate::packet::Packet;

verus! {

/// Notice sub-opcode: the answer to a status query.
pub const CLAN_PREMIUM_QUERY: u8 = 1;

/// Notice sub-opcode: the status changed.
pub const CLAN_PREMIUM_STATUS_CHANGE: u8 = 2;

/// Status: the clan is not premium.
pub const CLAN_PREMIUM_INACTIVE: u8 = 0;

/// Status: the clan is premium.
pub const CLAN_PREMIUM_ACTIVE: u8 = 1;

/// The status byte of a clan.
pub fn clan_premium_status(active: bool) -> (r: u8)
    ensures
        r == if active {
            CLAN_PREMIUM_ACTIVE
        } else {
            CLAN_PREMIUM_INACTIVE
        },
{
    if active {
        CLAN_PREMIUM_ACTIVE
    } else {
        CLAN_PREMIUM_INACTIVE
    }
}

/// The clan premium opcode.
pub const WIZ_CLAN_PREMIUM: u8 = 0x5C;

/// A premium notice: the notice kind and the status.
pub fn build_clan_premium(sub_opcode: u8, result: u8) -> (r: Packet)
    ensures
        r.opcode == WIZ_CLAN_PREMIUM,
        r.data@ == seq![sub_opcode, result],
{
    let mut pkt = Packet::new(WIZ_CLAN_PREMIUM);
    pkt.write_u8(sub_opcode);
    pkt.write_u8(result);
    assert(pkt.data@ =~= seq![sub_opcode, result]);
    pkt
}

} // verus!
