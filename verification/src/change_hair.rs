//! Changing a character's face and hair on the character selection screen.

use vstd::prelude::*;
use crate::packet::PacketReader;
use crate::request::{field_u8, field_u32, field_sbyte, take_u8, take_u32, take_sbyte_string};

verus! {

/// The face and hair change opcode.
pub const WIZ_CHANGE_HAIR: u8 = 0x89;

/// Result: the change was saved.
pub const CHANGE_HAIR_SUCCESS: u8 = 0;

/// Result: the change was refused.
pub const CHANGE_HAIR_FAIL: u8 = 1;

/// Whether a character slot holds exactly this name.
pub open spec fn slot_holds(slot: Option<String>, name: Seq<char>) -> bool {
    match slot {
        Some(s) => s@ == name,
        None => false,
    }
}

/// A change may go to the database when it comes from the selection screen
/// (sub-opcode 0), names a character, and the character is one of the
/// account's (exact name match).
pub open spec fn hair_change_allowed(sub_opcode: u8, name: Seq<char>, slots: Seq<Option<String>>) -> bool {
    &&& sub_opcode == 0
    &&& name.len() > 0
    &&& exists|i: int| 0 <= i < slots.len() && slot_holds(#[trigger] slots[i], name)
}

/// Whether a face and hair change may go to the database; `slots` are the
/// account's character slots.
pub fn check_change_hair(sub_opcode: u8, name: &String, slots: &Vec<Option<String>>) -> (r: bool)
    ensures
        r == hair_change_allowed(sub_opcode, name@, slots@),
{
    if sub_opcode != 0 || name.as_str().is_empty() {
        return false;
    }
    let mut i: usize = 0;
    while i < slots.len()
        invariant
            i <= slots@.len(),
            sub_opcode == 0,
            name@.len() > 0,
            forall|j: int| 0 <= j < i ==> !slot_holds(#[trigger] slots@[j], name@),
        decreases slots@.len() - i,
    {
        match &slots[i] {
            Some(s) => {
                if *s == *name {
                    assert(slot_holds(slots@[i as int], name@));
                    return true;
                }
            },
            None => {},
        }
        i = i + 1;
    }
    false
}

/// The reply to a change: success only when the database saved it.
pub fn change_hair_result(allowed: bool, saved: bool) -> (r: u8)
    ensures
        r == if allowed && saved {
            CHANGE_HAIR_SUCCESS
        } else {
            CHANGE_HAIR_FAIL
        },
{
    if allowed && saved {
        CHANGE_HAIR_SUCCESS
    } else {
        CHANGE_HAIR_FAIL
    }
}


/// A face and hair change request as the client sends it.
#[derive(Debug, Clone, PartialEq, Eq)]
pub struct ChangeHairRequest {
    pub sub_opcode: u8,
    pub char_name: Vec<u8>,
    pub face: u8,
    pub hair: u32,
}

/// The fields of a face and hair change request: the sub-opcode (255 when
/// the request is empty), the character name (empty when missing), the
/// face and the hair (zero when missing).
pub open spec fn change_hair_request_matches(r: ChangeHairRequest, d: Seq<u8>) -> bool {
    let (sub, p1) = field_u8(d, 0);
    let (name, p2) = field_sbyte(d, p1);
    let (face, p3) = field_u8(d, p2);
    let (hair, _p4) = field_u32(d, p3);
    &&& r.sub_opcode == (if d.len() > 0 {
        sub
    } else {
        255u8
    })
    &&& r.char_name@ == name
    &&& r.face == face
    &&& r.hair == hair
}

/// Reads a face and hair change request.
pub fn parse_change_hair_request(data: &[u8]) -> (r: ChangeHairRequest)
    ensures
        change_hair_request_matches(r, data@),
{
    let mut rd = PacketReader::new(data);
    let present = rd.remaining() > 0;
    let first = take_u8(&mut rd);
    let sub_opcode = if present {
        first
    } else {
        255
    };
    let char_name = take_sbyte_string(&mut rd);
    let face = take_u8(&mut rd);
    let hair = take_u32(&mut rd);
    ChangeHairRequest { sub_opcode, char_name, face, hair }
}

} // verus!
