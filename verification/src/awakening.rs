//! The awakening visual effect shown to clients.

use vstd::prelude::*;
use crate::packet::{Packet, le4, twos};

verus! {

/// The only effect type that the client draws.
pub const EFFECT_TYPE_VISUAL: u8 = 1;

/// The awakening effect opcode.
pub const WIZ_AWAKENING: u8 = 0xCB;

/// The effect: the scale (the four little-endian bytes of a 32-bit
/// floating-point number), the effect type and the effect id.
pub fn build_effect(effect_scale: [u8; 4], effect_type: u8, effect_id: i32) -> (r: Packet)
    ensures
        r.opcode == WIZ_AWAKENING,
        r.data@ == effect_scale@ + seq![effect_type] + le4(twos(effect_id as int, 32)),
{
    let mut pkt = Packet::new(WIZ_AWAKENING);
    pkt.write_bytes(&effect_scale);
    pkt.write_u8(effect_type);
    pkt.write_i32(effect_id);
    assert(pkt.data@ =~= effect_scale@ + seq![effect_type] + le4(twos(effect_id as int, 32)));
    pkt
}

/// The effect with the visual type.
pub fn build_visual_effect(effect_scale: [u8; 4], effect_id: i32) -> (r: Packet)
    ensures
        r.opcode == WIZ_AWAKENING,
        r.data@ == effect_scale@ + seq![EFFECT_TYPE_VISUAL] + le4(twos(effect_id as int, 32)),
{
    build_effect(effect_scale, EFFECT_TYPE_VISUAL, effect_id)
}

} // verus!
