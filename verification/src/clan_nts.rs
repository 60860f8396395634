//! Clan nation transfer: a clan leader moves the whole clan, and every
//! character of its members' accounts, to the other nation.
//!
//! The leader must lead the clan and carry the transfer item; no other
//! member may be online, and no character of the members' accounts may be
//! a king or belong to another clan. Each character then changes class by
//! one hundred (Karus 1xx, El Morad 2xx) and takes the race its job plays
//! in the new nation.

use std::string::String;
use std::vec::Vec;
use vstd::prelude::*;
use vstd::string::StringExecFns;
use crate::packet::{Packet, le2};
use vstd::string::StringSliceAdditionalSpecFns;

use crate::world::{
    has_item_in_inventory, spec_bag_has_item, ItemSlot, ELMORAD_MAN, ELMORAD_WOMAN, KARUS_BIG,
    KARUS_MIDDLE, KARUS_SMALL, KARUS_WOMAN, KURIAN, NATION_ELMORAD, NATION_KARUS, PORUTU,
};

verus! {

/// Item required for a clan nation transfer.
pub const CLAN_NTS_ITEM: u32 = 900144023;

/// Title of the message box that answers a transfer request.
pub const CLAN_NTS_TITLE: &'static str = "Clan Nation Transfer";

/// Result codes of a clan nation transfer.
#[derive(Debug, Clone, Copy, PartialEq, Eq, Structural)]
pub enum ClanNtsResult {
    Failed,
    SuccessReq,
    AlreadyReq,
    NoClanLeader,
    OnlineMember,
    NoItem,
    IsKing,
    InOtherClan,
    Success,
}

impl ClanNtsResult {
    /// Wire value of a result code (4 is not used).
    pub open spec fn spec_code(self) -> u8 {
        match self {
            ClanNtsResult::Failed => 0,
            ClanNtsResult::SuccessReq => 1,
            ClanNtsResult::AlreadyReq => 2,
            ClanNtsResult::NoClanLeader => 3,
            ClanNtsResult::OnlineMember => 5,
            ClanNtsResult::NoItem => 6,
            ClanNtsResult::IsKing => 7,
            ClanNtsResult::InOtherClan => 8,
            ClanNtsResult::Success => 9,
        }
    }

    /// Wire value of a result code (4 is not used).
    pub fn code(&self) -> (r: u8)
        ensures
            r == self.spec_code(),
    {
        match self {
            ClanNtsResult::Failed => 0,
            ClanNtsResult::SuccessReq => 1,
            ClanNtsResult::AlreadyReq => 2,
            ClanNtsResult::NoClanLeader => 3,
            ClanNtsResult::OnlineMember => 5,
            ClanNtsResult::NoItem => 6,
            ClanNtsResult::IsKing => 7,
            ClanNtsResult::InOtherClan => 8,
            ClanNtsResult::Success => 9,
        }
    }
}

/// The race a class plays in `nation` after a transfer: by class type
/// (class % 100), men for warriors and rogues, women for mages and priests
/// (El Morad) or the matching Karus races, Porutu/Kurian for kurians, and
/// the warrior race for any other type.
pub open spec fn cnts_race(class: u16, nation: u8) -> u8 {
    let t = class % 100;
    if nation == NATION_ELMORAD {
        if t == 1 || t == 5 || t == 6 || t == 2 || t == 7 || t == 8 {
            ELMORAD_MAN
        } else if t == 3 || t == 9 || t == 10 || t == 4 || t == 11 || t == 12 {
            ELMORAD_WOMAN
        } else if 13 <= t <= 15 {
            PORUTU
        } else {
            ELMORAD_MAN
        }
    } else {
        if t == 1 || t == 5 || t == 6 {
            KARUS_BIG
        } else if t == 2 || t == 7 || t == 8 {
            KARUS_MIDDLE
        } else if t == 3 || t == 9 || t == 10 {
            KARUS_SMALL
        } else if t == 4 || t == 11 || t == 12 {
            KARUS_WOMAN
        } else if 13 <= t <= 15 {
            KURIAN
        } else {
            KARUS_BIG
        }
    }
}

/// The race a class plays in `nation` after a transfer.
pub fn get_cnts_new_race(class: u16, nation: u8) -> (r: u8)
    ensures
        r == cnts_race(class, nation),
{
    let base = class % 100;
    if nation == NATION_ELMORAD {
        if base == 1 || base == 5 || base == 6 || base == 2 || base == 7 || base == 8 {
            ELMORAD_MAN
        } else if base == 3 || base == 9 || base == 10 || base == 4 || base == 11 || base == 12 {
            ELMORAD_WOMAN
        } else if 13 <= base && base <= 15 {
            PORUTU
        } else {
            ELMORAD_MAN
        }
    } else {
        if base == 1 || base == 5 || base == 6 {
            KARUS_BIG
        } else if base == 2 || base == 7 || base == 8 {
            KARUS_MIDDLE
        } else if base == 3 || base == 9 || base == 10 {
            KARUS_SMALL
        } else if base == 4 || base == 11 || base == 12 {
            KARUS_WOMAN
        } else if 13 <= base && base <= 15 {
            KURIAN
        } else {
            KARUS_BIG
        }
    }
}

/// `prefix` followed by `extra`.
fn concat(prefix: &str, extra: &str) -> (r: String)
    ensures
        r@ == prefix@ + extra@,
{
    let head = String::from_str(prefix);
    head.concat(extra)
}

/// The text of the message box that answers a transfer request with
/// `code`; `extra` names the character that blocked the transfer.
pub open spec fn result_text(code: ClanNtsResult, extra: Seq<char>) -> Seq<char> {
    match code {
        ClanNtsResult::Failed => "something went wrong."@,
        ClanNtsResult::SuccessReq => "The request has been successfully discarded."@,
        ClanNtsResult::AlreadyReq => "You have already made a request."@,
        ClanNtsResult::NoClanLeader => "You are not in a clan or a leader."@,
        ClanNtsResult::OnlineMember => "Online User "@ + extra,
        ClanNtsResult::NoItem => "You do not have the required parts on you."@,
        ClanNtsResult::IsKing => "King User "@ + extra,
        ClanNtsResult::InOtherClan => "is in clan User "@ + extra,
        ClanNtsResult::Success => "Success Process"@,
    }
}

/// The text sent to the leader for a result `code` (shown under the title
/// `CLAN_NTS_TITLE`); `extra` names the character that blocked the
/// transfer.
pub fn send_result(code: ClanNtsResult, extra: &str) -> (r: String)
    ensures
        r@ == result_text(code, extra@),
{
    match code {
        ClanNtsResult::Failed => "something went wrong.".to_owned(),
        ClanNtsResult::SuccessReq => "The request has been successfully discarded.".to_owned(),
        ClanNtsResult::AlreadyReq => "You have already made a request.".to_owned(),
        ClanNtsResult::NoClanLeader => "You are not in a clan or a leader.".to_owned(),
        ClanNtsResult::OnlineMember => concat("Online User ", extra),
        ClanNtsResult::NoItem => "You do not have the required parts on you.".to_owned(),
        ClanNtsResult::IsKing => concat("King User ", extra),
        ClanNtsResult::InOtherClan => concat("is in clan User ", extra),
        ClanNtsResult::Success => "Success Process".to_owned(),
    }
}

/// An ASCII byte in lower case.
pub open spec fn ascii_lower(b: u8) -> u8 {
    if 65 <= b <= 90 {
        (b + 32) as u8
    } else {
        b
    }
}

/// The two byte strings are equal when ASCII letters are compared without
/// case.
pub open spec fn same_ignoring_ascii_case(a: Seq<u8>, b: Seq<u8>) -> bool {
    a.len() == b.len() && forall|i: int| 0 <= i < a.len() ==> ascii_lower(#[trigger] a[i]) == ascii_lower(b[i])
}

/// Whether two names are equal when ASCII letters are compared without
/// case.
pub fn names_match(a: &str, b: &str) -> (r: bool)
    ensures
        r == same_ignoring_ascii_case(a.spec_bytes(), b.spec_bytes()),
{
    let x = a.as_bytes();
    let y = b.as_bytes();
    if x.len() != y.len() {
        return false;
    }
    let mut i: usize = 0;
    while i < x.len()
        invariant
            x@ == a.spec_bytes(),
            y@ == b.spec_bytes(),
            x@.len() == y@.len(),
            i <= x@.len(),
            forall|j: int| 0 <= j < i ==> ascii_lower(#[trigger] x@[j]) == ascii_lower(y@[j]),
        decreases x@.len() - i,
    {
        let p = if 65 <= x[i] && x[i] <= 90 {
            x[i] + 32
        } else {
            x[i]
        };
        let q = if 65 <= y[i] && y[i] <= 90 {
            y[i] + 32
        } else {
            y[i]
        };
        if p != q {
            return false;
        }
        i = i + 1;
    }
    true
}

/// The nation a clan of `nation` moves to: Karus goes to El Morad, every
/// other nation to Karus.
pub open spec fn transfer_target(nation: u8) -> u8 {
    if nation == NATION_KARUS {
        NATION_ELMORAD
    } else {
        NATION_KARUS
    }
}

/// First checks of a transfer request by a leader named `leader_name` of
/// clan `knights_id` (0 for none) and nation `nation`, carrying
/// `inventory`. `clan_chief` is the chief's name of that clan (if the clan
/// exists) and `other_online` the names of the other clan members online.
///
/// Refused as `NoClanLeader` without a clan or when the leader is not its
/// chief (names compared without ASCII case), `NoItem` without the
/// transfer item in the bag, `OnlineMember` with the first member online;
/// else the nation the clan moves to.
pub fn clan_nts_precheck(
    leader_name: &str,
    knights_id: u16,
    nation: u8,
    inventory: &Vec<ItemSlot>,
    clan_chief: Option<&str>,
    other_online: &Vec<String>,
) -> (r: Result<u8, (ClanNtsResult, String)>)
    ensures
        ({
            if knights_id == 0 || clan_chief is None || !same_ignoring_ascii_case(
                clan_chief->0.spec_bytes(),
                leader_name.spec_bytes(),
            ) {
                r matches Err((c, t)) && c == ClanNtsResult::NoClanLeader && t@ == result_text(
                    c,
                    Seq::empty(),
                )
            } else if !spec_bag_has_item(inventory@, CLAN_NTS_ITEM) {
                r matches Err((c, t)) && c == ClanNtsResult::NoItem && t@ == result_text(
                    c,
                    Seq::empty(),
                )
            } else if other_online@.len() > 0 {
                r matches Err((c, t)) && c == ClanNtsResult::OnlineMember && t@ == result_text(
                    c,
                    other_online@[0]@,
                )
            } else {
                r == Ok::<u8, (ClanNtsResult, String)>(transfer_target(nation))
            }
        }),
{
    if knights_id == 0 {
        return Err((ClanNtsResult::NoClanLeader, send_result(ClanNtsResult::NoClanLeader, "")));
    }
    let chief = match clan_chief {
        Some(c) => c,
        None => {
            return Err((ClanNtsResult::NoClanLeader, send_result(ClanNtsResult::NoClanLeader, "")))
        },
    };
    if !names_match(chief, leader_name) {
        return Err((ClanNtsResult::NoClanLeader, send_result(ClanNtsResult::NoClanLeader, "")));
    }
    if !has_item_in_inventory(inventory, CLAN_NTS_ITEM) {
        return Err((ClanNtsResult::NoItem, send_result(ClanNtsResult::NoItem, "")));
    }
    if other_online.len() > 0 {
        let name = other_online[0].as_str();
        return Err((ClanNtsResult::OnlineMember, send_result(ClanNtsResult::OnlineMember, name)));
    }
    if nation == NATION_KARUS {
        Ok(NATION_ELMORAD)
    } else {
        Ok(NATION_KARUS)
    }
}

/// A character of a clan member's account.
#[derive(Debug, Clone)]
pub struct ClanNtsMember {
    pub name: String,
    pub class: i16,
    /// Clan of the character (0 or less for none).
    pub knights: i16,
    /// Whether the character is the king of either nation.
    pub is_king: bool,
}

/// The character blocks a transfer of clan `clan_id`: it is a king, or it
/// belongs to another clan.
pub open spec fn blocks_transfer(m: ClanNtsMember, clan_id: u16) -> bool {
    m.is_king || (m.knights > 0 && m.knights != clan_id as i16)
}

/// Check the characters of the members' accounts, in order: the first
/// one that is a king refuses the transfer as `IsKing`, the first one in
/// another clan as `InOtherClan` (whichever comes first).
pub fn clan_nts_check_members(members: &Vec<ClanNtsMember>, clan_id: u16) -> (r: Result<
    (),
    (ClanNtsResult, String),
>)
    ensures
        (forall|i: int| 0 <= i < members@.len() ==> !blocks_transfer(#[trigger] members@[i], clan_id))
            <==> r is Ok,
        r matches Err((c, t)) ==> exists|k: int|
            #![trigger members@[k]]
            0 <= k < members@.len() && blocks_transfer(members@[k], clan_id) && (forall|j: int|
                0 <= j < k ==> !blocks_transfer(#[trigger] members@[j], clan_id)) && c == (if members@[k].is_king {
                ClanNtsResult::IsKing
            } else {
                ClanNtsResult::InOtherClan
            }) && t@ == result_text(c, members@[k].name@),
{
    let mut i: usize = 0;
    while i < members.len()
        invariant
            i <= members@.len(),
            forall|j: int| 0 <= j < i ==> !blocks_transfer(#[trigger] members@[j], clan_id),
        decreases members@.len() - i,
    {
        let m = &members[i];
        if m.is_king {
            return Err((ClanNtsResult::IsKing, send_result(ClanNtsResult::IsKing, m.name.as_str())));
        }
        if m.knights > 0 && m.knights != clan_id as i16 {
            return Err(
                (ClanNtsResult::InOtherClan, send_result(ClanNtsResult::InOtherClan, m.name.as_str())),
            );
        }
        i = i + 1;
    }
    Ok(())
}

/// The class a character takes in `target_nation`: one hundred more for
/// El Morad, one hundred less for Karus.
pub open spec fn transferred_class(class: int, target_nation: u8) -> int {
    if target_nation == NATION_ELMORAD {
        class + 100
    } else {
        class - 100
    }
}

/// The class and race a character takes when its clan moves to
/// `target_nation`.
pub fn clan_nts_new_class_and_race(class: i16, target_nation: u8) -> (r: (i16, u8))
    requires
        -32668 <= class <= 32667,
    ensures
        r.0 == transferred_class(class as int, target_nation),
        r.1 == cnts_race(r.0 as u16, target_nation),
{
    let new_class = if target_nation == NATION_ELMORAD {
        class + 100
    } else {
        class - 100
    };
    (new_class, get_cnts_new_race(new_class as u16, target_nation))
}

/// A transfer always changes the nation, and moving a class there and
/// back gives the same class, keeping its class type (job and tier).
pub proof fn lemma_transfer_round_trip(nation: u8, class: int)
    ensures
        transfer_target(nation) != nation,
        nation == NATION_KARUS || nation == NATION_ELMORAD ==> transfer_target(transfer_target(nation)) == nation,
        transferred_class(transferred_class(class, NATION_ELMORAD), NATION_KARUS) == class,
        class >= 0 ==> transferred_class(class, NATION_ELMORAD) % 100 == class % 100,
{
}

/// The opcode of extension-hook packets.
pub const EXT_HOOK_S2C: u8 = 0xE9;

/// The extension-hook sub-opcode of a message box.
pub const EXT_SUB_MESSAGE: u8 = 0xBE;

/// A message box with a title and a text, both as two-byte-length strings.
pub fn build_ext_hook_message(title: &str, msg: &str) -> (r: Packet)
    requires
        title.spec_bytes().len() <= u16::MAX,
        msg.spec_bytes().len() <= u16::MAX,
    ensures
        r.opcode == EXT_HOOK_S2C,
        r.data@ == seq![EXT_SUB_MESSAGE] + le2(title.spec_bytes().len() as int) + title.spec_bytes() + le2(
            msg.spec_bytes().len() as int,
        ) + msg.spec_bytes(),
{
    let mut pkt = Packet::new(EXT_HOOK_S2C);
    pkt.write_u8(EXT_SUB_MESSAGE);
    pkt.write_string(title);
    pkt.write_string(msg);
    assert(pkt.data@ =~= seq![EXT_SUB_MESSAGE] + le2(title.spec_bytes().len() as int) + title.spec_bytes() + le2(
        msg.spec_bytes().len() as int,
    ) + msg.spec_bytes());
    pkt
}

} // verus!
