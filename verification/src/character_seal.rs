//! Character sealing: a seal scroll turns an alternative character of the
//! account into a Cypher Ring, which can later restore the character into a
//! free character slot. This module decides the requests and decodes the
//! inventory record stored with a sealed character.

use vstd::prelude::*;
use crate::world::{ItemSlot, SLOT_MAX, HAVE_MAX, INVENTORY_COSP, ITEM_FLAG_NONE, spec_bag_has_item,
    has_item_in_inventory};
use crate::clan_nts::{same_ignoring_ascii_case, names_match};
use vstd::string::StringSliceAdditionalSpecFns;
use crate::packet::{Packet, le2, le4, twos, utf8};
use crate::packet::PacketReader;
use crate::request::{field_u8, field_u32, field_string, take_u8, take_u32, take_string};

verus! {

/// The item upgrade opcode, which carries character sealing.
pub const WIZ_ITEM_UPGRADE: u8 = 0x5B;

/// The item-upgrade sub-opcode of character sealing.
pub const ITEM_CHARACTER_SEAL: u8 = 9;

/// The scroll consumed to seal a character.
pub const ITEM_SEAL_SCROLL: u32 = 800_111_000;

/// The ring that holds a sealed character.
pub const ITEM_CYPHER_RING: u32 = 800_112_000;

/// Sub-opcode: list the account's characters.
pub const SEAL_SHOW_LIST: u8 = 1;

/// Sub-opcode: seal a character with a scroll.
pub const SEAL_USE_SCROLL: u8 = 2;

/// Sub-opcode: restore a character from a ring.
pub const SEAL_USE_RING: u8 = 3;

/// Sub-opcode: preview a sealed character.
pub const SEAL_PREVIEW: u8 = 4;

/// Sub-opcode: echo.
pub const SEAL_ECHO: u8 = 5;

/// Sub-opcode: list a sealed character's achievements.
pub const SEAL_ACHIEVE_LIST: u8 = 6;

/// Ring error: the target character slot is taken.
pub const RING_ERROR_SLOT_TAKEN: u16 = 3;

/// Ring error: any other failure.
pub const RING_ERROR_FAILED: u16 = 0;

/// Bytes per item in a sealed character's inventory record.
pub const SEALED_ITEM_SIZE: usize = 9;

/// The seal list opens only for a player holding a seal scroll or a Cypher
/// Ring in the bag.
pub fn has_seal_item(inv: &Vec<ItemSlot>) -> (r: bool)
    ensures
        r == (spec_bag_has_item(inv@, ITEM_SEAL_SCROLL) || spec_bag_has_item(inv@, ITEM_CYPHER_RING)),
{
    has_item_in_inventory(inv, ITEM_SEAL_SCROLL) || has_item_in_inventory(inv, ITEM_CYPHER_RING)
}

/// A character of the account as the character table gives it.
#[derive(Debug, Clone, PartialEq, Eq)]
pub struct SealCharacter {
    pub name: String,
    pub race: u8,
    pub face: u8,
    pub class: u16,
    pub level: u8,
}

/// One line of the seal list: a character, or a blank line for an empty
/// slot.
#[derive(Debug, Clone, PartialEq, Eq)]
pub struct SealListEntry {
    pub name: String,
    pub race: u8,
    pub face: u8,
    pub class: u16,
    pub level: u8,
}

/// The bytes of a name.
pub open spec fn name_bytes(name: Seq<char>) -> Seq<u8> {
    vstd::utf8::encode_utf8(name)
}

/// Whether character `i` of `chars` is the first whose name matches `name`
/// without regard to ASCII case.
pub open spec fn first_named(chars: Seq<SealCharacter>, name: Seq<u8>, i: int) -> bool {
    &&& 0 <= i < chars.len()
    &&& same_ignoring_ascii_case(name_bytes(chars[i].name@), name)
    &&& forall|j: int| 0 <= j < i ==> !same_ignoring_ascii_case(#[trigger] name_bytes(chars[j].name@), name)
}

/// The list line for a slot name: blank for an empty slot or a name that no
/// character carries; otherwise the first character of that name.
pub open spec fn list_entry_spec(slot_name: Seq<u8>, chars: Seq<SealCharacter>, e: SealListEntry) -> bool {
    if slot_name.len() > 0 && exists|i: int| first_named(chars, slot_name, i) {
        exists|i: int|
            #[trigger] first_named(chars, slot_name, i) && e.name@ == chars[i].name@ && e.race
                == chars[i].race && e.face == chars[i].face && e.class == chars[i].class && e.level
                == chars[i].level
    } else {
        e.name@.len() == 0 && e.race == 0 && e.face == 0 && e.class == 0 && e.level == 0
    }
}

/// The line of the seal list for one character slot of the account.
pub fn seal_list_entry(slot_name: &str, chars: &Vec<SealCharacter>) -> (r: SealListEntry)
    ensures
        list_entry_spec(slot_name.spec_bytes(), chars@, r),
{
    let blank = SealListEntry { name: String::new(), race: 0, face: 0, class: 0, level: 0 };
    if slot_name.as_bytes().len() == 0 {
        return blank;
    }
    let mut i: usize = 0;
    while i < chars.len()
        invariant
            i <= chars@.len(),
            slot_name.spec_bytes().len() > 0,
            forall|j: int|
                0 <= j < i ==> !same_ignoring_ascii_case(
                    #[trigger] name_bytes(chars@[j].name@),
                    slot_name.spec_bytes(),
                ),
        decreases chars@.len() - i,
    {
        let c = &chars[i];
        let cname = c.name.as_str();
        if names_match(cname, slot_name) {
            proof {
                assert(cname.spec_bytes() == name_bytes(c.name@));
                assert(first_named(chars@, slot_name.spec_bytes(), i as int));
            }
            return SealListEntry {
                name: c.name.clone(),
                race: c.race,
                face: c.face,
                class: c.class,
                level: c.level,
            };
        }
        i = i + 1;
    }
    proof {
        assert forall|k: int| !first_named(chars@, slot_name.spec_bytes(), k) by {
            if 0 <= k < chars@.len() {
                assert(!same_ignoring_ascii_case(name_bytes(chars@[k].name@), slot_name.spec_bytes()));
            }
        }
    }
    blank
}

/// The bag index of the seal scroll when a request to seal `target` may go
/// on: the target is named and is not the player's own character (compared
/// without ASCII case), the password matches the account's VIP password,
/// the bag slot lies in the bag and holds an unflagged seal scroll, and the
/// request names the seal scroll. Any other request is answered with the
/// scroll error.
pub open spec fn scroll_precheck(
    target: Seq<u8>,
    current: Seq<u8>,
    vip_pass: Seq<char>,
    password: Seq<char>,
    src_slot: u8,
    item_id: u32,
    inv: Seq<ItemSlot>,
) -> Option<usize> {
    let index = SLOT_MAX + src_slot;
    if target.len() == 0 || same_ignoring_ascii_case(target, current) || vip_pass != password
        || (src_slot as int) >= HAVE_MAX || index >= inv.len() {
        None
    } else if inv[index].item_id == ITEM_SEAL_SCROLL && item_id == ITEM_SEAL_SCROLL
        && inv[index].flag == ITEM_FLAG_NONE {
        Some(index as usize)
    } else {
        None
    }
}

/// Checks a request to seal the character `target` with the scroll in bag
/// slot `src_slot`.
pub fn check_use_scroll(
    target: &str,
    current: &str,
    vip_pass: &String,
    password: &String,
    src_slot: u8,
    item_id: u32,
    inv: &Vec<ItemSlot>,
) -> (r: Option<usize>)
    ensures
        r == scroll_precheck(
            target.spec_bytes(),
            current.spec_bytes(),
            vip_pass@,
            password@,
            src_slot,
            item_id,
            inv@,
        ),
{
    if target.as_bytes().len() == 0 || names_match(target, current) {
        return None;
    }
    if !(*vip_pass == *password) {
        return None;
    }
    if (src_slot as usize) >= HAVE_MAX {
        return None;
    }
    let index = SLOT_MAX + src_slot as usize;
    if index >= inv.len() {
        return None;
    }
    let slot = inv[index];
    if slot.item_id == ITEM_SEAL_SCROLL && item_id == ITEM_SEAL_SCROLL && slot.flag == ITEM_FLAG_NONE {
        Some(index)
    } else {
        None
    }
}

/// The first account slot whose character name matches `target` without
/// regard to ASCII case.
pub open spec fn slot_of(slots: Seq<String>, target: Seq<u8>) -> Option<usize> {
    if exists|i: int| 0 <= i < slots.len() && same_ignoring_ascii_case(#[trigger] name_bytes(slots[i]@), target) {
        let i = choose|i: int|
            0 <= i < slots.len() && same_ignoring_ascii_case(#[trigger] name_bytes(slots[i]@), target)
                && forall|j: int| 0 <= j < i ==> !same_ignoring_ascii_case(#[trigger] name_bytes(slots[j]@), target);
        Some(i as usize)
    } else {
        None
    }
}

/// The account slot that holds the character to seal; `None` when the
/// character does not belong to the account.
pub fn find_character_slot(slots: &Vec<String>, target: &str) -> (r: Option<usize>)
    ensures
        r == slot_of(slots@, target.spec_bytes()),
{
    let mut i: usize = 0;
    while i < slots.len()
        invariant
            i <= slots@.len(),
            forall|j: int|
                0 <= j < i ==> !same_ignoring_ascii_case(
                    #[trigger] name_bytes(slots@[j]@),
                    target.spec_bytes(),
                ),
        decreases slots@.len() - i,
    {
        let name = slots[i].as_str();
        if names_match(name, target) {
            proof {
                assert(name.spec_bytes() == name_bytes(slots@[i as int]@));
                let k = i as int;
                let c = choose|c: int|
                    0 <= c < slots@.len() && same_ignoring_ascii_case(#[trigger] name_bytes(slots@[c]@), target.spec_bytes())
                        && forall|j: int| 0 <= j < c ==> !same_ignoring_ascii_case(#[trigger] name_bytes(slots@[j]@), target.spec_bytes());
                assert(0 <= k < slots@.len() && same_ignoring_ascii_case(name_bytes(slots@[k]@), target.spec_bytes()));
                if c < k {
                    assert(!same_ignoring_ascii_case(name_bytes(slots@[c]@), target.spec_bytes()));
                } else if c > k {
                    assert(!same_ignoring_ascii_case(name_bytes(slots@[k]@), target.spec_bytes()));
                }
            }
            return Some(i);
        }
        i = i + 1;
    }
    None
}

/// Turns the seal scroll at `index` into the Cypher Ring that now holds the
/// character; nothing else changes.
pub fn scroll_into_ring(inv: &mut Vec<ItemSlot>, index: usize)
    ensures
        index < old(inv)@.len() ==> final(inv)@ == old(inv)@.update(
            index as int,
            ItemSlot { item_id: ITEM_CYPHER_RING, ..old(inv)@[index as int] },
        ),
        index >= old(inv)@.len() ==> final(inv)@ == old(inv)@,
{
    if index < inv.len() {
        let mut s = inv[index];
        s.item_id = ITEM_CYPHER_RING;
        inv.set(index, s);
    }
}

/// The first check of a request to restore a character from a ring.
#[derive(Debug, Clone, Copy, PartialEq, Eq, Structural)]
pub enum RingCheck {
    /// Malformed request: no answer.
    Ignore,
    /// Answer with ring error 0.
    Error,
    /// Go on with the ring at this inventory index.
    Proceed(usize),
}

/// The first check of a restore request: a bag slot out of range, another
/// item than the ring or a character slot past the fourth is ignored; the
/// named bag slot must hold an unflagged Cypher Ring.
pub open spec fn ring_check(src_slot: u8, item_id: u32, target_slot: u8, inv: Seq<ItemSlot>) -> RingCheck {
    let index = SLOT_MAX + src_slot;
    if (src_slot as int) >= HAVE_MAX || item_id != ITEM_CYPHER_RING || target_slot >= 4 {
        RingCheck::Ignore
    } else if index < inv.len() && inv[index].item_id == ITEM_CYPHER_RING && inv[index].flag
        == ITEM_FLAG_NONE {
        RingCheck::Proceed(index as usize)
    } else {
        RingCheck::Error
    }
}

/// Checks a request to restore a character from the ring in bag slot
/// `src_slot` into character slot `target_slot`.
pub fn check_use_ring(src_slot: u8, item_id: u32, target_slot: u8, inv: &Vec<ItemSlot>) -> (r: RingCheck)
    ensures
        r == ring_check(src_slot, item_id, target_slot, inv@),
{
    if (src_slot as usize) >= HAVE_MAX || item_id != ITEM_CYPHER_RING || target_slot >= 4 {
        return RingCheck::Ignore;
    }
    let index = SLOT_MAX + src_slot as usize;
    if index < inv.len() && inv[index].item_id == ITEM_CYPHER_RING && inv[index].flag == ITEM_FLAG_NONE {
        RingCheck::Proceed(index)
    } else {
        RingCheck::Error
    }
}

/// Whether the character slot to restore into is already taken.
pub fn character_slot_taken(slots: &Vec<String>, target_slot: u8) -> (r: bool)
    requires
        (target_slot as int) < slots@.len(),
    ensures
        r == (slots@[target_slot as int]@.len() != 0),
{
    !slots[target_slot as usize].as_str().is_empty()
}

/// The nation of a sealed character: its class divided by one hundred
/// (truncating), taken modulo 256.
pub open spec fn class_nation(class: i32) -> u8 {
    let q: int = if class >= 0 {
        class / 100
    } else {
        -((-class) / 100)
    };
    q as u8
}

/// The nation of a sealed character, from its class.
pub fn sealed_nation(class: i32) -> (r: u8)
    ensures
        r == class_nation(class),
{
    (class / 100) as u8
}

/// Empties the ring's slot after the character was restored: item, durability,
/// count, flag and serial number become zero; the original flag and expiry
/// time stay.
pub fn clear_ring_slot(inv: &mut Vec<ItemSlot>, index: usize)
    ensures
        index < old(inv)@.len() ==> final(inv)@ == old(inv)@.update(
            index as int,
            ItemSlot {
                item_id: 0,
                durability: 0,
                count: 0,
                flag: 0,
                serial_num: 0,
                ..old(inv)@[index as int]
            },
        ),
        index >= old(inv)@.len() ==> final(inv)@ == old(inv)@,
{
    if index < inv.len() {
        let mut s = inv[index];
        s.item_id = 0;
        s.durability = 0;
        s.count = 0;
        s.flag = 0;
        s.serial_num = 0;
        inv.set(index, s);
    }
}

/// One item of a sealed character's inventory, as the preview shows it.
#[derive(Debug, Clone, Copy, PartialEq, Eq, Structural)]
pub struct SealedItem {
    pub item_id: u32,
    pub durability: i16,
    pub count: u16,
    pub flag: u8,
}

/// The empty preview item.
pub open spec fn no_sealed_item() -> SealedItem {
    SealedItem { item_id: 0, durability: 0, count: 0, flag: 0 }
}

/// Two bytes read as a little-endian unsigned number.
pub open spec fn le_u16(lo: u8, hi: u8) -> int {
    lo + 256 * hi
}

/// Four bytes of `data` from `at` read as a little-endian unsigned number.
pub open spec fn le_u32(data: Seq<u8>, at: int) -> int {
    data[at] + 256 * data[at + 1] + 65536 * data[at + 2] + 16777216 * data[at + 3]
}

/// An unsigned 16-bit number read as two's complement.
pub open spec fn signed16(v: int) -> int {
    if v >= 32768 {
        v - 65536
    } else {
        v
    }
}

/// Item `i` of a sealed inventory record: nine bytes from `9 * i` holding a
/// little-endian item id (four bytes), durability (two, signed), count (two)
/// and the flag (one); an item whose bytes run past the record is empty.
pub open spec fn sealed_item_at(data: Seq<u8>, i: int) -> SealedItem {
    let at = 9 * i;
    if at + 9 <= data.len() {
        SealedItem {
            item_id: le_u32(data, at) as u32,
            durability: signed16(le_u16(data[at + 4], data[at + 5])) as i16,
            count: le_u16(data[at + 6], data[at + 7]) as u16,
            flag: data[at + 8],
        }
    } else {
        no_sealed_item()
    }
}

/// Decodes the item at byte offset `at` of a sealed inventory record.
fn decode_sealed_item(data: &Vec<u8>, at: usize) -> (r: SealedItem)
    requires
        at + 9 <= data@.len(),
    ensures
        r == (SealedItem {
            item_id: le_u32(data@, at as int) as u32,
            durability: signed16(le_u16(data@[at + 4], data@[at + 5])) as i16,
            count: le_u16(data@[at + 6], data@[at + 7]) as u16,
            flag: data@[at + 8],
        }),
{
    let n = data.len();
    assert(at + 9 <= n);
    let item_id: u32 = data[at] as u32 + data[at + 1] as u32 * 256 + data[at + 2] as u32 * 65536
        + data[at + 3] as u32 * 16777216;
    let raw_durability: u16 = data[at + 4] as u16 + data[at + 5] as u16 * 256;
    let durability: i16 = if raw_durability >= 32768 {
        (raw_durability as i32 - 65536) as i16
    } else {
        raw_durability as i16
    };
    let count: u16 = data[at + 6] as u16 + data[at + 7] as u16 * 256;
    SealedItem { item_id, durability, count, flag: data[at + 8] }
}

/// The inventory shown in the preview of a sealed character: one item for
/// each of the first `INVENTORY_COSP` slots, decoded from the stored record,
/// or all empty when no record was stored.
pub fn decode_sealed_inventory(data: &Option<Vec<u8>>) -> (r: Vec<SealedItem>)
    ensures
        r@.len() == INVENTORY_COSP,
        forall|i: int|
            0 <= i < INVENTORY_COSP ==> #[trigger] r@[i] == match data {
                Some(d) => sealed_item_at(d@, i),
                None => no_sealed_item(),
            },
{
    let mut items: Vec<SealedItem> = Vec::new();
    let mut i: usize = 0;
    while i < INVENTORY_COSP
        invariant
            i <= INVENTORY_COSP,
            items@.len() == i,
            forall|j: int|
                0 <= j < i ==> #[trigger] items@[j] == match data {
                    Some(d) => sealed_item_at(d@, j),
                    None => no_sealed_item(),
                },
        decreases INVENTORY_COSP - i,
    {
        let item = match data {
            Some(d) => {
                let at = i * 9;
                if at + 9 <= d.len() {
                    decode_sealed_item(d, at)
                } else {
                    SealedItem { item_id: 0, durability: 0, count: 0, flag: 0 }
                }
            },
            None => SealedItem { item_id: 0, durability: 0, count: 0, flag: 0 },
        };
        items.push(item);
        i = i + 1;
    }
    items
}

// ── Replies ──────────────────────────────────────────────────────────

/// A reply of character sealing: the item-upgrade opcode, the sealing
/// sub-opcode, then `body`.
pub open spec fn seal_reply(r: Packet, body: Seq<u8>) -> bool {
    r.opcode == WIZ_ITEM_UPGRADE && r.data@ == seq![ITEM_CHARACTER_SEAL] + body
}

fn seal_base() -> (r: Packet)
    ensures
        seal_reply(r, Seq::empty()),
{
    let mut pkt = Packet::new(WIZ_ITEM_UPGRADE);
    pkt.write_u8(ITEM_CHARACTER_SEAL);
    assert(pkt.data@ =~= seq![ITEM_CHARACTER_SEAL] + Seq::<u8>::empty());
    pkt
}

/// The refusal of a sealing request: a zero 16-bit code.
pub fn build_scroll_error() -> (r: Packet)
    ensures
        seal_reply(r, seq![SEAL_USE_SCROLL] + le2(0)),
{
    let mut pkt = seal_base();
    pkt.write_u8(SEAL_USE_SCROLL);
    pkt.write_u16(0);
    assert(pkt.data@ =~= seq![ITEM_CHARACTER_SEAL] + (seq![SEAL_USE_SCROLL] + le2(0)));
    pkt
}

/// The refusal of a restore request, with its 16-bit code.
pub fn build_ring_error(code: u16) -> (r: Packet)
    ensures
        seal_reply(r, seq![SEAL_USE_RING] + le2(code as int)),
{
    let mut pkt = seal_base();
    pkt.write_u8(SEAL_USE_RING);
    pkt.write_u16(code);
    assert(pkt.data@ =~= seq![ITEM_CHARACTER_SEAL] + (seq![SEAL_USE_RING] + le2(code as int)));
    pkt
}

/// The echo reply.
pub fn build_echo() -> (r: Packet)
    ensures
        seal_reply(r, seq![SEAL_ECHO]),
{
    let mut pkt = seal_base();
    pkt.write_u8(SEAL_ECHO);
    assert(pkt.data@ =~= seq![ITEM_CHARACTER_SEAL] + seq![SEAL_ECHO]);
    pkt
}

/// The achievement list of a sealed character, which is always empty: a
/// success byte and a zero count.
pub fn build_achieve_list() -> (r: Packet)
    ensures
        seal_reply(r, seq![SEAL_ACHIEVE_LIST, 1u8] + le4(0)),
{
    let mut pkt = seal_base();
    pkt.write_u8(SEAL_ACHIEVE_LIST);
    pkt.write_u8(1);
    pkt.write_u32(0);
    assert(pkt.data@ =~= seq![ITEM_CHARACTER_SEAL] + (seq![SEAL_ACHIEVE_LIST, 1u8] + le4(0)));
    pkt
}

/// The reply to a restored character: success, the ring's bag slot and a
/// zero 32-bit field.
pub fn build_use_ring_success(src_slot: u8) -> (r: Packet)
    ensures
        seal_reply(r, seq![SEAL_USE_RING, 1u8, src_slot] + le4(0)),
{
    let mut pkt = seal_base();
    pkt.write_u8(SEAL_USE_RING);
    pkt.write_u8(1);
    pkt.write_u8(src_slot);
    pkt.write_u32(0);
    assert(pkt.data@ =~= seq![ITEM_CHARACTER_SEAL] + (seq![SEAL_USE_RING, 1u8, src_slot] + le4(0)));
    pkt
}

/// What the sealing reply tells of the sealed character.
#[derive(Debug, Clone, PartialEq, Eq)]
pub struct SealedSummary {
    pub name: String,
    pub class: u8,
    pub level: u8,
    pub race: u8,
}

/// The reply to a sealed character: success, the bag slot, the Cypher Ring,
/// the ring's unique id, then the character's name, class, level, a zero
/// 16-bit field, race and a zero byte. When the character's record could
/// not be read the requested name is sent with zeros.
pub fn build_use_scroll_success(src_slot: u8, unique_id: u32, summary: Option<&SealedSummary>, target: &str) -> (r: Packet)
    requires
        summary matches Some(x) ==> utf8(x.name@).len() <= u8::MAX,
        target.spec_bytes().len() <= u8::MAX,
    ensures
        seal_reply(
            r,
            seq![SEAL_USE_SCROLL, 1u8, src_slot] + le4(ITEM_CYPHER_RING as int) + le4(unique_id as int)
                + match summary {
                Some(x) => seq![utf8(x.name@).len() as u8] + utf8(x.name@) + seq![x.class, x.level]
                    + le2(0) + seq![x.race, 0u8],
                None => seq![target.spec_bytes().len() as u8] + target.spec_bytes() + seq![0u8, 0u8]
                    + le2(0) + seq![0u8, 0u8],
            },
        ),
{
    let mut pkt = seal_base();
    pkt.write_u8(SEAL_USE_SCROLL);
    pkt.write_u8(1);
    pkt.write_u8(src_slot);
    pkt.write_u32(ITEM_CYPHER_RING);
    pkt.write_u32(unique_id);
    let ghost head = pkt.data@;
    match summary {
        Some(x) => {
            let name = x.name.as_str();
            pkt.write_sbyte_string(name);
            pkt.write_u8(x.class);
            pkt.write_u8(x.level);
            pkt.write_u16(0);
            pkt.write_u8(x.race);
            pkt.write_u8(0);
            assert(pkt.data@ =~= head + (seq![utf8(x.name@).len() as u8] + utf8(x.name@) + seq![x.class, x.level]
                + le2(0) + seq![x.race, 0u8]));
            assert(pkt.data@ =~= seq![ITEM_CHARACTER_SEAL] + (seq![SEAL_USE_SCROLL, 1u8, src_slot] + le4(ITEM_CYPHER_RING as int)
                + le4(unique_id as int) + (seq![utf8(x.name@).len() as u8] + utf8(x.name@) + seq![x.class, x.level]
                + le2(0) + seq![x.race, 0u8])));
        },
        None => {
            pkt.write_sbyte_string(target);
            pkt.write_u8(0);
            pkt.write_u8(0);
            pkt.write_u16(0);
            pkt.write_u8(0);
            pkt.write_u8(0);
            assert(pkt.data@ =~= head + (seq![target.spec_bytes().len() as u8] + target.spec_bytes() + seq![0u8, 0u8]
                + le2(0) + seq![0u8, 0u8]));
            assert(pkt.data@ =~= seq![ITEM_CHARACTER_SEAL] + (seq![SEAL_USE_SCROLL, 1u8, src_slot] + le4(ITEM_CYPHER_RING as int)
                + le4(unique_id as int) + (seq![target.spec_bytes().len() as u8] + target.spec_bytes() + seq![0u8, 0u8]
                + le2(0) + seq![0u8, 0u8])));
        },
    }
    pkt
}

/// One line of the seal list on the wire: the name (a short string), race,
/// face, class (16 bits) and level.
pub open spec fn list_line_bytes(e: SealListEntry) -> Seq<u8> {
    seq![utf8(e.name@).len() as u8] + utf8(e.name@) + seq![e.race, e.face] + le2(e.class as int) + seq![e.level]
}

/// The lines of the seal list on the wire, in order.
pub open spec fn list_bytes(entries: Seq<SealListEntry>) -> Seq<u8>
    decreases entries.len(),
{
    if entries.len() == 0 {
        Seq::empty()
    } else {
        list_bytes(entries.drop_last()) + list_line_bytes(entries.last())
    }
}

/// The seal list: a success byte, then one line per character slot.
pub fn build_show_list(entries: &Vec<SealListEntry>) -> (r: Packet)
    requires
        forall|i: int| 0 <= i < entries@.len() ==> utf8((#[trigger] entries@[i]).name@).len() <= u8::MAX,
    ensures
        seal_reply(r, seq![SEAL_SHOW_LIST, 1u8] + list_bytes(entries@)),
{
    let mut pkt = seal_base();
    pkt.write_u8(SEAL_SHOW_LIST);
    pkt.write_u8(1);
    let ghost head = pkt.data@;
    let mut i: usize = 0;
    while i < entries.len()
        invariant
            i <= entries@.len(),
            forall|j: int| 0 <= j < entries@.len() ==> utf8((#[trigger] entries@[j]).name@).len() <= u8::MAX,
            pkt.opcode == WIZ_ITEM_UPGRADE,
            head == seq![ITEM_CHARACTER_SEAL, SEAL_SHOW_LIST, 1u8],
            pkt.data@ == head + list_bytes(entries@.take(i as int)),
        decreases entries@.len() - i,
    {
        let e = &entries[i];
        let ghost before = pkt.data@;
        let name = e.name.as_str();
        assert(utf8(entries@[i as int].name@).len() <= u8::MAX);
        pkt.write_sbyte_string(name);
        pkt.write_u8(e.race);
        pkt.write_u8(e.face);
        pkt.write_u16(e.class);
        pkt.write_u8(e.level);
        proof {
            assert(entries@.take(i + 1).drop_last() =~= entries@.take(i as int));
            assert(entries@.take(i + 1).last() == entries@[i as int]);
            assert(pkt.data@ =~= before + list_line_bytes(*e));
        }
        i = i + 1;
    }
    proof {
        assert(entries@.take(entries@.len() as int) =~= entries@);
        assert(pkt.data@ =~= seq![ITEM_CHARACTER_SEAL] + (seq![SEAL_SHOW_LIST, 1u8] + list_bytes(entries@)));
    }
    pkt
}

/// What a preview shows of a sealed character.
#[derive(Debug, Clone, PartialEq, Eq)]
pub struct SealPreview {
    pub name: String,
    pub race: u8,
    pub class: u16,
    pub level: u8,
    pub loyalty: u32,
    pub strength: u8,
    pub stamina: u8,
    pub dexterity: u8,
    pub intelligence: u8,
    pub charisma: u8,
    pub gold: u32,
    pub free_points: u8,
    pub skill_cat1: u8,
    pub skill_cat2: u8,
    pub skill_cat3: u8,
    pub skill_master: u8,
}

/// One preview item on the wire: id (32 bits), durability (16 bits, signed),
/// count (16 bits) and flag.
pub open spec fn sealed_item_bytes(it: SealedItem) -> Seq<u8> {
    le4(it.item_id as int) + le2(twos(it.durability as int, 16)) + le2(it.count as int) + seq![it.flag]
}

/// The preview items on the wire, in order.
pub open spec fn items_bytes(items: Seq<SealedItem>) -> Seq<u8>
    decreases items.len(),
{
    if items.len() == 0 {
        Seq::empty()
    } else {
        items_bytes(items.drop_last()) + sealed_item_bytes(items.last())
    }
}

/// The identity part of a preview: the name (a short string), a one, the
/// race, the class (16 bits), the level and the national points.
pub open spec fn preview_identity_bytes(p: SealPreview) -> Seq<u8> {
    seq![utf8(p.name@).len() as u8] + utf8(p.name@) + seq![1u8, p.race] + le2(p.class as int) + seq![p.level]
        + le4(p.loyalty as int)
}

/// The statistics part of a preview: the five stats, gold, free points, a
/// 32-bit one and the three skill trees and the master tree.
pub open spec fn preview_stat_bytes(p: SealPreview) -> Seq<u8> {
    seq![p.strength, p.stamina, p.dexterity, p.intelligence, p.charisma] + le4(p.gold as int) + seq![p.free_points]
        + le4(1) + seq![p.skill_cat1, p.skill_cat2, p.skill_cat3, p.skill_master]
}

fn write_preview_identity(pkt: &mut Packet, p: &SealPreview)
    requires
        utf8(p.name@).len() <= u8::MAX,
    ensures
        final(pkt).opcode == old(pkt).opcode,
        final(pkt).data@ == old(pkt).data@ + preview_identity_bytes(*p),
{
    pkt.write_sbyte_string(p.name.as_str());
    pkt.write_u8(1);
    pkt.write_u8(p.race);
    pkt.write_u16(p.class);
    pkt.write_u8(p.level);
    pkt.write_u32(p.loyalty);
    assert(pkt.data@ =~= old(pkt).data@ + preview_identity_bytes(*p));
}

fn write_preview_stats(pkt: &mut Packet, p: &SealPreview)
    ensures
        final(pkt).opcode == old(pkt).opcode,
        final(pkt).data@ == old(pkt).data@ + preview_stat_bytes(*p),
{
    pkt.write_u8(p.strength);
    pkt.write_u8(p.stamina);
    pkt.write_u8(p.dexterity);
    pkt.write_u8(p.intelligence);
    pkt.write_u8(p.charisma);
    let ghost mid = pkt.data@;
    assert(mid =~= old(pkt).data@ + seq![p.strength, p.stamina, p.dexterity, p.intelligence, p.charisma]);
    pkt.write_u32(p.gold);
    pkt.write_u8(p.free_points);
    pkt.write_u32(1);
    pkt.write_u8(p.skill_cat1);
    pkt.write_u8(p.skill_cat2);
    pkt.write_u8(p.skill_cat3);
    pkt.write_u8(p.skill_master);
    assert(pkt.data@ =~= mid + (le4(p.gold as int) + seq![p.free_points] + le4(1) + seq![p.skill_cat1, p.skill_cat2, p.skill_cat3, p.skill_master]));
    assert(pkt.data@ =~= old(pkt).data@ + preview_stat_bytes(*p));
}

fn write_sealed_items(pkt: &mut Packet, items: &Vec<SealedItem>)
    ensures
        final(pkt).opcode == old(pkt).opcode,
        final(pkt).data@ == old(pkt).data@ + items_bytes(items@),
{
    let mut i: usize = 0;
    while i < items.len()
        invariant
            i <= items@.len(),
            pkt.opcode == old(pkt).opcode,
            pkt.data@ == old(pkt).data@ + items_bytes(items@.take(i as int)),
        decreases items@.len() - i,
    {
        let it = items[i];
        let ghost before = pkt.data@;
        pkt.write_u32(it.item_id);
        pkt.write_i16(it.durability);
        pkt.write_u16(it.count);
        pkt.write_u8(it.flag);
        proof {
            assert(items@.take(i + 1).drop_last() =~= items@.take(i as int));
            assert(items@.take(i + 1).last() == items@[i as int]);
            assert(pkt.data@ =~= before + sealed_item_bytes(it));
            assert(pkt.data@ =~= old(pkt).data@ + items_bytes(items@.take(i + 1)));
        }
        i = i + 1;
    }
    proof {
        assert(items@.take(items@.len() as int) =~= items@);
    }
}

/// The preview of a sealed character: success, the statistics and the
/// items; an unknown ring gets error code 2.
pub fn build_preview(preview: Option<&SealPreview>, items: &Vec<SealedItem>) -> (r: Packet)
    requires
        preview matches Some(p) ==> utf8(p.name@).len() <= u8::MAX,
    ensures
        seal_reply(
            r,
            match preview {
                Some(p) => seq![SEAL_PREVIEW, 1u8] + preview_identity_bytes(*p) + preview_stat_bytes(*p) + items_bytes(items@),
                None => seq![SEAL_PREVIEW, 2u8],
            },
        ),
{
    let mut pkt = seal_base();
    pkt.write_u8(SEAL_PREVIEW);
    match preview {
        None => {
            pkt.write_u8(2);
            assert(pkt.data@ =~= seq![ITEM_CHARACTER_SEAL] + seq![SEAL_PREVIEW, 2u8]);
            pkt
        },
        Some(p) => {
            pkt.write_u8(1);
            write_preview_identity(&mut pkt, p);
            write_preview_stats(&mut pkt, p);
            write_sealed_items(&mut pkt, items);
            assert(pkt.data@ =~= seq![ITEM_CHARACTER_SEAL] + (seq![SEAL_PREVIEW, 1u8] + preview_identity_bytes(*p)
                + preview_stat_bytes(*p) + items_bytes(items@)));
            pkt
        },
    }
}


/// A character seal request as the client sends it.
#[derive(Debug, Clone, PartialEq, Eq)]
pub enum SealRequest {
    /// List the account's characters.
    ShowList,
    /// Seal the named character into the scroll at bag slot `src_slot`.
    UseScroll { src_slot: u8, item_id: u32, target_name: Vec<u8>, password: Vec<u8> },
    /// Unseal the ring at bag slot `src_slot` into character slot `target_slot`.
    UseRing { src_slot: u8, item_id: u32, target_slot: u8 },
    /// Show what the ring with this serial holds.
    Preview { unique_id: u32 },
    /// Echo the sub-opcode.
    Echo,
    /// The achievement list.
    AchieveList,
    /// Any other sub-opcode: no answer.
    Unknown(u8),
}

/// A character seal request: the sub-opcode (zero when missing), then the
/// fields of its kind, each zero or empty when missing; sealing and
/// unsealing start with four bytes that are read and not used.
pub open spec fn seal_request_matches(r: SealRequest, d: Seq<u8>) -> bool {
    let (sub, p1) = field_u8(d, 0);
    let (_unknown, p2) = field_u32(d, p1);
    let (src_slot, p3) = field_u8(d, p2);
    let (item_id, p4) = field_u32(d, p3);
    if sub == SEAL_SHOW_LIST {
        r is ShowList
    } else if sub == SEAL_USE_SCROLL {
        let (target_name, p5) = field_string(d, p4);
        let (password, _p6) = field_string(d, p5);
        r matches SealRequest::UseScroll { src_slot: s, item_id: i, target_name: t, password: w }
            && s == src_slot && i == item_id && t@ == target_name && w@ == password
    } else if sub == SEAL_USE_RING {
        let (target_slot, _p5) = field_u8(d, p4);
        r == SealRequest::UseRing { src_slot, item_id, target_slot }
    } else if sub == SEAL_PREVIEW {
        r == SealRequest::Preview { unique_id: field_u32(d, p1).0 }
    } else if sub == SEAL_ECHO {
        r is Echo
    } else if sub == SEAL_ACHIEVE_LIST {
        r is AchieveList
    } else {
        r == SealRequest::Unknown(sub)
    }
}

/// Reads a character seal request.
pub fn parse_seal_request(data: &[u8]) -> (r: SealRequest)
    ensures
        seal_request_matches(r, data@),
{
    let mut rd = PacketReader::new(data);
    let sub = take_u8(&mut rd);
    if sub == SEAL_SHOW_LIST {
        SealRequest::ShowList
    } else if sub == SEAL_USE_SCROLL {
        let _unknown = take_u32(&mut rd);
        let src_slot = take_u8(&mut rd);
        let item_id = take_u32(&mut rd);
        let target_name = take_string(&mut rd);
        let password = take_string(&mut rd);
        SealRequest::UseScroll { src_slot, item_id, target_name, password }
    } else if sub == SEAL_USE_RING {
        let _unknown = take_u32(&mut rd);
        let src_slot = take_u8(&mut rd);
        let item_id = take_u32(&mut rd);
        let target_slot = take_u8(&mut rd);
        SealRequest::UseRing { src_slot, item_id, target_slot }
    } else if sub == SEAL_PREVIEW {
        let unique_id = take_u32(&mut rd);
        SealRequest::Preview { unique_id }
    } else if sub == SEAL_ECHO {
        SealRequest::Echo
    } else if sub == SEAL_ACHIEVE_LIST {
        SealRequest::AchieveList
    } else {
        SealRequest::Unknown(sub)
    }
}

} // verus!
