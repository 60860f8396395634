//! The kill-count display: the client shows the count, or clears the
//! display for zero.

use vstd::prelude::*;
use crate::packet::{Packet, le4, twos};

verus! {

/// The kill-count display opcode.
pub const WIZ_ACHIEVEMENT2: u8 = 0xA5;

/// The text the client shows for a count above zero.
pub const ACHIEVEMENT_COUNT_TEXT: u32 = 0xA7FA;

/// The text the client shows when the count is cleared.
pub const ACHIEVEMENT_CLEAR_TEXT: u32 = 0xA7FB;

/// The display update: the count as a signed 32-bit number.
pub fn build_achievement2(value: i32) -> (r: Packet)
    ensures
        r.opcode == WIZ_ACHIEVEMENT2,
        r.data@ == le4(twos(value as int, 32)),
{
    let mut pkt = Packet::new(WIZ_ACHIEVEMENT2);
    pkt.write_i32(value);
    assert(pkt.data@ =~= le4(twos(value as int, 32)));
    pkt
}

} // verus!
