//! The experience seal: experience gained while the seal is on goes into a
//! sealed pool of at most one billion points, and sealed experience can be
//! bottled into jar items of fixed sizes.

use vstd::prelude::*;
use crate::packet::PacketReader;
use crate::request::{field_u8, field_u32, field_u64, take_u8, take_u32, take_u64};
use crate::packet::{Packet, le4};
use crate::world::{ItemSlot, SLOT_MAX};

verus! {

/// The experience seal opcode.
pub const WIZ_EXP_SEAL: u8 = 0x9A;

/// The most experience the sealed pool holds.
pub const MAX_SEALED_EXP: u32 = 1_000_000_000;

/// The empty jar that is filled with sealed experience.
pub const SEALED_JAR: u32 = 810_354_000;

/// The jar holding one hundred million sealed experience.
pub const SEALED_JAR_100M: u32 = 810_357_000;

/// The jar holding five hundred million sealed experience.
pub const SEALED_JAR_500M: u32 = 810_355_000;

/// The jar holding one billion sealed experience.
pub const SEALED_JAR_1B: u32 = 810_356_000;

/// The filled jar for an amount of sealed experience, for the three amounts
/// that a jar holds.
pub open spec fn jar_for(sealed_exp: u64) -> Option<u32> {
    if sealed_exp == 100_000_000 {
        Some(SEALED_JAR_100M)
    } else if sealed_exp == 500_000_000 {
        Some(SEALED_JAR_500M)
    } else if sealed_exp == 1_000_000_000 {
        Some(SEALED_JAR_1B)
    } else {
        None
    }
}

/// The filled jar for an amount of sealed experience.
pub fn sealed_jar_for(sealed_exp: u64) -> (r: Option<u32>)
    ensures
        r == jar_for(sealed_exp),
{
    if sealed_exp == 100_000_000 {
        Some(SEALED_JAR_100M)
    } else if sealed_exp == 500_000_000 {
        Some(SEALED_JAR_500M)
    } else if sealed_exp == 1_000_000_000 {
        Some(SEALED_JAR_1B)
    } else {
        None
    }
}

/// A bottling request is granted when it names the empty jar, the bag
/// position `inv_pos` holds the empty jar, the amount does not exceed the
/// sealed pool, a jar of that size exists and the item table knows it. The
/// result is the inventory index of the empty jar and the filled jar.
pub open spec fn potion_outcome(
    jar_item_id: u32,
    inv_pos: u8,
    sealed_exp: u64,
    inv: Seq<ItemSlot>,
    current_sealed: u32,
    known_items: Seq<u32>,
) -> Option<(usize, u32)> {
    let index = SLOT_MAX + inv_pos;
    if jar_item_id != SEALED_JAR || index >= inv.len() || inv[index].item_id != SEALED_JAR
        || sealed_exp > current_sealed {
        None
    } else {
        match jar_for(sealed_exp) {
            None => None,
            Some(jar) => if known_items.contains(jar) {
                Some((index as usize, jar))
            } else {
                None
            },
        }
    }
}

/// A bottling request is granted exactly when it names the empty jar, the
/// bag position holds the empty jar, the amount is 100 million, 500 million
/// or one billion and at most the sealed pool (the whole pool may be
/// bottled), and the filled jar of that size is known; it then yields that
/// filled jar in place of the empty one at the bag position.
pub proof fn lemma_potion_granted_exactly(
    jar_item_id: u32,
    inv_pos: u8,
    sealed_exp: u64,
    inv: Seq<ItemSlot>,
    current_sealed: u32,
    known_items: Seq<u32>,
)
    ensures
        ({
            let filled = if sealed_exp == 100_000_000 {
                SEALED_JAR_100M
            } else if sealed_exp == 500_000_000 {
                SEALED_JAR_500M
            } else {
                SEALED_JAR_1B
            };
            let index = SLOT_MAX + inv_pos;
            let granted = jar_item_id == SEALED_JAR && index < inv.len() && inv[index].item_id == SEALED_JAR
                && sealed_exp <= current_sealed && (sealed_exp == 100_000_000 || sealed_exp == 500_000_000
                || sealed_exp == 1_000_000_000) && known_items.contains(filled);
            &&& granted ==> potion_outcome(jar_item_id, inv_pos, sealed_exp, inv, current_sealed, known_items)
                == Some((index as usize, filled))
            &&& !granted ==> potion_outcome(jar_item_id, inv_pos, sealed_exp, inv, current_sealed, known_items)
                is None
        }),
{
}

/// Whether `items` holds `id`.
pub fn contains_item(items: &Vec<u32>, id: u32) -> (r: bool)
    ensures
        r == items@.contains(id),
{
    let mut i: usize = 0;
    while i < items.len()
        invariant
            i <= items@.len(),
            forall|j: int| 0 <= j < i ==> items@[j] != id,
        decreases items@.len() - i,
    {
        if items[i] == id {
            return true;
        }
        i = i + 1;
    }
    false
}

/// Decides a request to bottle `sealed_exp` sealed experience with the empty
/// jar at bag position `inv_pos`: the index of the jar to consume and the
/// filled jar to give, or `None` when the request fails.
pub fn check_sealed_potion(
    jar_item_id: u32,
    inv_pos: u8,
    sealed_exp: u64,
    inv: &Vec<ItemSlot>,
    current_sealed: u32,
    known_items: &Vec<u32>,
) -> (r: Option<(usize, u32)>)
    ensures
        r == potion_outcome(jar_item_id, inv_pos, sealed_exp, inv@, current_sealed, known_items@),
{
    if jar_item_id != SEALED_JAR {
        return None;
    }
    let index = SLOT_MAX + inv_pos as usize;
    if index >= inv.len() || inv[index].item_id != SEALED_JAR {
        return None;
    }
    if sealed_exp > current_sealed as u64 {
        return None;
    }
    match sealed_jar_for(sealed_exp) {
        None => None,
        Some(jar) => if contains_item(known_items, jar) {
            Some((index, jar))
        } else {
            None
        },
    }
}

/// The sealed pool after `taken` experience was bottled, never below zero.
pub fn sealed_after_potion(current: u32, taken: u64) -> (r: u32)
    requires
        taken <= current,
    ensures
        r == current - taken,
{
    current - taken as u32
}

/// The bag position where an item lies: the first slot after the equipment
/// that holds `item_id`, counted from the start of the bag, or zero when no
/// such slot exists.
pub open spec fn placed_position(inv: Seq<ItemSlot>, item_id: u32) -> u8 {
    if exists|i: int| SLOT_MAX <= i < inv.len() && #[trigger] inv[i].item_id == item_id {
        let i = choose|i: int|
            SLOT_MAX <= i < inv.len() && #[trigger] inv[i].item_id == item_id && forall|j: int|
                SLOT_MAX <= j < i ==> inv[j].item_id != item_id;
        (i - SLOT_MAX) as u8
    } else {
        0
    }
}

/// The bag position where a newly given jar lies.
pub fn find_placed_position(inv: &Vec<ItemSlot>, item_id: u32) -> (r: u8)
    ensures
        r == placed_position(inv@, item_id),
{
    let mut i: usize = SLOT_MAX;
    while i < inv.len()
        invariant
            SLOT_MAX <= i,
            i <= inv@.len() || i == SLOT_MAX,
            forall|j: int| SLOT_MAX <= j < i && j < inv@.len() ==> #[trigger] inv@[j].item_id != item_id,
        decreases inv@.len() - i,
    {
        if inv[i].item_id == item_id {
            let ghost k = i as int;
            assert(SLOT_MAX <= k < inv@.len() && inv@[k].item_id == item_id && forall|j: int|
                SLOT_MAX <= j < k ==> inv@[j].item_id != item_id);
            proof {
                let c = choose|c: int|
                    SLOT_MAX <= c < inv@.len() && #[trigger] inv@[c].item_id == item_id && forall|j: int|
                        SLOT_MAX <= j < c ==> inv@[j].item_id != item_id;
                if c < k {
                    assert(inv@[c].item_id != item_id);
                } else if c > k {
                    assert(inv@[k].item_id != item_id);
                }
            }
            return (i - SLOT_MAX) as u8;
        }
        i = i + 1;
    }
    0
}

/// What happens to experience gained while the seal is on.
#[derive(Debug, Clone, Copy, PartialEq, Eq, Structural)]
pub enum SealGain {
    /// The pool is full: the seal turns off and the experience is gained
    /// as usual.
    Release,
    /// The pool becomes the given amount.
    Store(u32),
}

/// The outcome of gaining `amount` experience with the seal on and `sealed`
/// experience in the pool: a full pool releases any positive gain;
/// otherwise the gain is added and the pool is capped at one billion.
pub open spec fn seal_gain(sealed: u32, amount: u64) -> SealGain {
    if sealed >= MAX_SEALED_EXP && amount > 0 {
        SealGain::Release
    } else {
        SealGain::Store(
            if sealed + amount > MAX_SEALED_EXP {
                MAX_SEALED_EXP
            } else {
                (sealed + amount) as u32
            },
        )
    }
}

/// Decides what happens to experience gained with the seal on.
pub fn exp_seal_gain(sealed: u32, amount: u64) -> (r: SealGain)
    ensures
        r == seal_gain(sealed, amount),
        r matches SealGain::Store(n) ==> n <= MAX_SEALED_EXP,
{
    if sealed >= MAX_SEALED_EXP && amount > 0 {
        return SealGain::Release;
    }
    if amount > MAX_SEALED_EXP as u64 {
        return SealGain::Store(MAX_SEALED_EXP);
    }
    let sum: u64 = sealed as u64 + amount;
    SealGain::Store(if sum > MAX_SEALED_EXP as u64 { MAX_SEALED_EXP } else { sum as u32 })
}

/// Once gains fill the pool to one billion, the next positive gain turns
/// the seal off instead of being stored.
pub proof fn lemma_full_pool_releases(sealed: u32, amount: u64, next: u64)
    requires
        seal_gain(sealed, amount) == SealGain::Store(MAX_SEALED_EXP),
        next > 0,
    ensures
        seal_gain(MAX_SEALED_EXP, next) == SealGain::Release,
{
}

/// Sub-opcode: turn the seal on.
pub const SEAL_EXP_ON: u8 = 1;

/// Sub-opcode: turn the seal off.
pub const SEAL_EXP_OFF: u8 = 2;

/// Sub-opcode: bottle sealed experience.
pub const SEAL_EXP_POTION: u8 = 3;

/// Sub-opcode: the sealed pool changed.
pub const SEAL_EXP_UPDATE: u8 = 4;

/// The reply to turning the seal on or off: the new state and a success
/// byte.
pub fn build_seal_status(enable: bool) -> (r: Packet)
    ensures
        r.opcode == WIZ_EXP_SEAL,
        r.data@ == seq![if enable {
            SEAL_EXP_ON
        } else {
            SEAL_EXP_OFF
        }, 1u8],
{
    let mut pkt = Packet::new(WIZ_EXP_SEAL);
    pkt.write_u8(if enable { SEAL_EXP_ON } else { SEAL_EXP_OFF });
    pkt.write_u8(1);
    assert(pkt.data@ =~= seq![if enable {
        SEAL_EXP_ON
    } else {
        SEAL_EXP_OFF
    }, 1u8]);
    pkt
}

/// The reply to a granted bottling: the filled jar, its bag position, the
/// bottled experience (its low 32 bits) and a zero 32-bit field.
pub fn build_potion_result(jar_item_id: u32, pos: u8, sealed_exp: u64) -> (r: Packet)
    ensures
        r.opcode == WIZ_EXP_SEAL,
        r.data@ == seq![SEAL_EXP_POTION] + le4(jar_item_id as int) + seq![pos] + le4(sealed_exp as int % 4294967296)
            + le4(0),
{
    let mut pkt = Packet::new(WIZ_EXP_SEAL);
    pkt.write_u8(SEAL_EXP_POTION);
    pkt.write_u32(jar_item_id);
    pkt.write_u8(pos);
    pkt.write_u32((sealed_exp % 4294967296) as u32);
    pkt.write_u32(0);
    assert(pkt.data@ =~= seq![SEAL_EXP_POTION] + le4(jar_item_id as int) + seq![pos] + le4(sealed_exp as int % 4294967296)
        + le4(0));
    pkt
}

/// The reply to a refused bottling: the sub-opcode alone.
pub fn build_potion_fail() -> (r: Packet)
    ensures
        r.opcode == WIZ_EXP_SEAL,
        r.data@ == seq![SEAL_EXP_POTION],
{
    let mut pkt = Packet::new(WIZ_EXP_SEAL);
    pkt.write_u8(SEAL_EXP_POTION);
    assert(pkt.data@ =~= seq![SEAL_EXP_POTION]);
    pkt
}

/// The sealed pool after a change, then a zero 32-bit field.
pub fn build_sealed_exp_update(sealed_exp: u32) -> (r: Packet)
    ensures
        r.opcode == WIZ_EXP_SEAL,
        r.data@ == seq![SEAL_EXP_UPDATE] + le4(sealed_exp as int) + le4(0),
{
    let mut pkt = Packet::new(WIZ_EXP_SEAL);
    pkt.write_u8(SEAL_EXP_UPDATE);
    pkt.write_u32(sealed_exp);
    pkt.write_u32(0);
    assert(pkt.data@ =~= seq![SEAL_EXP_UPDATE] + le4(sealed_exp as int) + le4(0));
    pkt
}

/// A request to the experience seal.
#[derive(Debug, Clone, Copy, PartialEq, Eq, Structural)]
pub enum ExpSealRequest {
    /// Turn the seal on.
    On,
    /// Turn the seal off.
    Off,
    /// Bottle `sealed_exp` with the empty jar at bag position `inv_pos`.
    Potion { jar_item_id: u32, inv_pos: u8, sealed_exp: u64 },
    /// Any other sub-opcode: no answer.
    Unknown(u8),
}

/// An experience seal request: its sub-opcode (zero when missing), and for
/// bottling the jar, the bag position and the amount, each zero when the
/// request is too short to hold it.
pub open spec fn exp_seal_request_of(d: Seq<u8>) -> ExpSealRequest {
    let (sub, p1) = field_u8(d, 0);
    if sub == SEAL_EXP_ON {
        ExpSealRequest::On
    } else if sub == SEAL_EXP_OFF {
        ExpSealRequest::Off
    } else if sub == SEAL_EXP_POTION {
        let (jar_item_id, p2) = field_u32(d, p1);
        let (inv_pos, p3) = field_u8(d, p2);
        let (sealed_exp, _p4) = field_u64(d, p3);
        ExpSealRequest::Potion { jar_item_id, inv_pos, sealed_exp }
    } else {
        ExpSealRequest::Unknown(sub)
    }
}

/// Reads an experience seal request.
pub fn parse_exp_seal_request(data: &[u8]) -> (r: ExpSealRequest)
    ensures
        r == exp_seal_request_of(data@),
{
    let mut rd = PacketReader::new(data);
    let sub = take_u8(&mut rd);
    if sub == SEAL_EXP_ON {
        ExpSealRequest::On
    } else if sub == SEAL_EXP_OFF {
        ExpSealRequest::Off
    } else if sub == SEAL_EXP_POTION {
        let jar_item_id = take_u32(&mut rd);
        let inv_pos = take_u8(&mut rd);
        let sealed_exp = take_u64(&mut rd);
        ExpSealRequest::Potion { jar_item_id, inv_pos, sealed_exp }
    } else {
        ExpSealRequest::Unknown(sub)
    }
}

} // verus!
