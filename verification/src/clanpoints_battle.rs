//! Clan notices shown on screen: each notice number selects a text.

use vstd::prelude::*;
use crate::packet::Packet;

verus! {

/// Text of notice 0.
pub const STRING_SUB_0: u32 = 25051;

/// Text of notice 1.
pub const STRING_SUB_1: u32 = 25052;

/// Text of notices 2 and 5.
pub const STRING_SUB_2_5: u32 = 1511;

/// Text of notice 3.
pub const STRING_SUB_3: u32 = 25053;

/// Text of notice 4.
pub const STRING_SUB_4: u32 = 25054;

/// The notice type byte, always one.
pub const NOTICE_TYPE: u8 = 1;

/// The text a notice number shows; numbers past 5 show none.
pub open spec fn notice_text(sub: u8) -> Option<u32> {
    if sub == 0 {
        Some(STRING_SUB_0)
    } else if sub == 1 {
        Some(STRING_SUB_1)
    } else if sub == 2 || sub == 5 {
        Some(STRING_SUB_2_5)
    } else if sub == 3 {
        Some(STRING_SUB_3)
    } else if sub == 4 {
        Some(STRING_SUB_4)
    } else {
        None
    }
}

/// The text a notice number shows.
pub fn notification_string(sub: u8) -> (r: Option<u32>)
    ensures
        r == notice_text(sub),
{
    if sub == 0 {
        Some(STRING_SUB_0)
    } else if sub == 1 {
        Some(STRING_SUB_1)
    } else if sub == 2 || sub == 5 {
        Some(STRING_SUB_2_5)
    } else if sub == 3 {
        Some(STRING_SUB_3)
    } else if sub == 4 {
        Some(STRING_SUB_4)
    } else {
        None
    }
}

/// The clan notice opcode.
pub const WIZ_CLANPOINTS_BATTLE: u8 = 0x91;

/// A clan notice: the notice type and the notice number.
pub fn build_notification(sub: u8) -> (r: Packet)
    ensures
        r.opcode == WIZ_CLANPOINTS_BATTLE,
        r.data@ == seq![NOTICE_TYPE, sub],
{
    let mut pkt = Packet::new(WIZ_CLANPOINTS_BATTLE);
    pkt.write_u8(NOTICE_TYPE);
    pkt.write_u8(sub);
    assert(pkt.data@ =~= seq![NOTICE_TYPE, sub]);
    pkt
}

} // verus!
