//! The name tag shown over a dead player's corpse.

use vstd::prelude::*;
use vstd::string::StringSliceAdditionalSpecFns;
use crate::packet::{Packet, le2};

verus! {

/// The corpse name tag opcode.
pub const WIZ_CORPSE: u8 = 0x4E;

/// The name tag: the dead player's id and name (a short string).
pub fn build_corpse(user_id: u16, name: &str) -> (r: Packet)
    requires
        name.spec_bytes().len() <= u8::MAX,
    ensures
        r.opcode == WIZ_CORPSE,
        r.data@ == le2(user_id as int) + seq![name.spec_bytes().len() as u8] + name.spec_bytes(),
{
    let mut pkt = Packet::new(WIZ_CORPSE);
    pkt.write_u16(user_id);
    pkt.write_sbyte_string(name);
    assert(pkt.data@ =~= le2(user_id as int) + seq![name.spec_bytes().len() as u8] + name.spec_bytes());
    pkt
}

} // verus!
