//! The online-user count that game masters may ask for.

use vstd::prelude::*;
use crate::packet::{Packet, le2};

verus! {

/// The online-user count opcode.
pub const WIZ_CONCURRENT_USER: u8 = 0x36;

/// The authority of a game master.
pub const AUTHORITY_GAME_MASTER: u8 = 0;

/// Only game masters are told the count.
pub fn may_see_user_count(authority: u8) -> (r: bool)
    ensures
        r == (authority == AUTHORITY_GAME_MASTER),
{
    authority == AUTHORITY_GAME_MASTER
}

/// The count as the reply carries it: the number of sessions modulo 2^16.
pub fn reported_user_count(online: usize) -> (r: u16)
    ensures
        r == online as u16,
{
    online as u16
}

/// The count sent to a game master.
pub fn build_user_count(count: u16) -> (r: Packet)
    ensures
        r.opcode == WIZ_CONCURRENT_USER,
        r.data@ == le2(count as int),
{
    let mut pkt = Packet::new(WIZ_CONCURRENT_USER);
    pkt.write_u16(count);
    assert(pkt.data@ =~= le2(count as int));
    pkt
}

} // verus!
