//! Class changes: job changes between the five job groups, stat and skill
//! point resets, and the rebirth stat system.
//!
//! A class code is `100 * nation + type`, where the type encodes the job
//! group and the tier:
//!
//! | Job group     | Beginner | Novice | Mastered |
//! |---------------|----------|--------|----------|
//! | Warrior       | 1        | 5      | 6        |
//! | Rogue         | 2        | 7      | 8        |
//! | Mage          | 3        | 9      | 10       |
//! | Priest        | 4        | 11     | 12       |
//! | Kurian/Porutu | 13       | 14     | 15       |

use std::vec::Vec;
use vstd::prelude::*;
use crate::packet::{Packet, le2, le4, twos};
use crate::packet::PacketReader;
use crate::request::{field_u8, take_u8};

use crate::world::{
    has_item_in_inventory, spec_bag_has_item, spec_wears_equipment, wears_equipment, ItemSlot,
    BABARIAN, ELMORAD_MAN, ELMORAD_WOMAN, KARUS_BIG, KARUS_MIDDLE, KARUS_SMALL, KARUS_WOMAN, KURIAN, PORUTU,
};

verus! {

/// The class change opcode.
pub const WIZ_CLASS_CHANGE: u8 = 0x34;

/// Sub-opcode: can the player change class?
pub const CLASS_CHANGE_REQ: u8 = 0x01;

/// Sub-opcode: answer to `CLASS_CHANGE_REQ`.
pub const CLASS_CHANGE_RESULT: u8 = 0x02;

/// Sub-opcode: reset all stat points.
pub const ALL_POINT_CHANGE: u8 = 0x03;

/// Sub-opcode: reset all skill points.
pub const ALL_SKILLPT_CHANGE: u8 = 0x04;

/// Sub-opcode: price of a stat or skill reset.
pub const CHANGE_MONEY_REQ: u8 = 0x05;

/// Sub-opcode: job change.
pub const PROMOTE_NOVICE: u8 = 0x06;

/// Sub-opcode: allocate rebirth stat points.
pub const REB_STAT_CHANGE: u8 = 0x07;

/// Sub-opcode: redistribute rebirth stat points.
pub const REB_STAT_RESET: u8 = 0x08;

/// Item required for a rebirth.
pub const QUALIFICATION_OF_REBIRTH: u32 = 900_579_000;

/// Gold cost of a rebirth stat reset.
pub const REBIRTH_RESET_GOLD: u32 = 100_000_000;

/// Premium types under which a rebirth stat reset is free.
pub const PREMIUM_REBIRTH_FREE_1: u8 = 12;

/// Premium types under which a rebirth stat reset is free.
pub const PREMIUM_REBIRTH_FREE_2: u8 = 13;

/// Job change scroll (normal change).
pub const ITEM_JOB_CHANGE: u32 = 700112000;

/// Job change scroll (master change).
pub const ITEM_JOB_CHANGE2: u32 = 700113000;

/// Return token: grants a free stat or skill reset.
pub const RETURNTOKENS: u32 = 810512000;

/// Premium type that grants a free stat or skill reset.
pub const PREMIUM_WARP: u8 = 12;

pub const KARUWARRIOR: u16 = 101;
pub const KARUROGUE: u16 = 102;
pub const KARUWIZARD: u16 = 103;
pub const KARUPRIEST: u16 = 104;
pub const BERSERKER: u16 = 105;
pub const GUARDIAN: u16 = 106;
pub const HUNTER: u16 = 107;
pub const PENETRATOR: u16 = 108;
pub const SORSERER: u16 = 109;
pub const NECROMANCER: u16 = 110;
pub const SHAMAN: u16 = 111;
pub const DARKPRIEST: u16 = 112;
pub const KURIANSTARTER: u16 = 113;
pub const KURIANNOVICE: u16 = 114;
pub const KURIANMASTER: u16 = 115;
pub const ELMORWARRIOR: u16 = 201;
pub const ELMOROGUE: u16 = 202;
pub const ELMOWIZARD: u16 = 203;
pub const ELMOPRIEST: u16 = 204;
pub const BLADE: u16 = 205;
pub const PROTECTOR: u16 = 206;
pub const RANGER: u16 = 207;
pub const ASSASSIN: u16 = 208;
pub const MAGE: u16 = 209;
pub const ENCHANTER: u16 = 210;
pub const CLERIC: u16 = 211;
pub const DRUID: u16 = 212;
pub const PORUTUSTARTER: u16 = 213;
pub const PORUTUNOVICE: u16 = 214;
pub const PORUTUMASTER: u16 = 215;

// ── Class model ──────────────────────────────────────────────────────

/// The job group of a class: 1 warrior, 2 rogue, 3 mage, 4 priest,
/// 5 kurian/porutu, 0 for a class type outside the table.
pub open spec fn job_group(class: u16) -> int {
    let t = class % 100;
    if t == 1 || t == 5 || t == 6 {
        1
    } else if t == 2 || t == 7 || t == 8 {
        2
    } else if t == 3 || t == 9 || t == 10 {
        3
    } else if t == 4 || t == 11 || t == 12 {
        4
    } else if 13 <= t <= 15 {
        5
    } else {
        0
    }
}

/// The tier of a class: 0 beginner, 1 novice, 2 mastered, -1 for a class
/// type outside the table.
pub open spec fn class_tier(class: u16) -> int {
    let t = class % 100;
    if t == 1 || t == 2 || t == 3 || t == 4 || t == 13 {
        0
    } else if t == 5 || t == 7 || t == 9 || t == 11 || t == 14 {
        1
    } else if t == 6 || t == 8 || t == 10 || t == 12 || t == 15 {
        2
    } else {
        -1
    }
}

/// The class type (class % 100).
pub fn get_class_type(class: u16) -> (r: u16)
    ensures
        r == class % 100,
{
    class % 100
}

/// Whether the class is a warrior of any tier.
pub fn is_warrior(class: u16) -> (r: bool)
    ensures
        r == (job_group(class) == 1),
{
    let t = get_class_type(class);
    t == 1 || t == 5 || t == 6
}

/// Whether the class is a rogue of any tier.
pub fn is_rogue(class: u16) -> (r: bool)
    ensures
        r == (job_group(class) == 2),
{
    let t = get_class_type(class);
    t == 2 || t == 7 || t == 8
}

/// Whether the class is a mage of any tier.
pub fn is_mage(class: u16) -> (r: bool)
    ensures
        r == (job_group(class) == 3),
{
    let t = get_class_type(class);
    t == 3 || t == 9 || t == 10
}

/// Whether the class is a priest of any tier.
pub fn is_priest(class: u16) -> (r: bool)
    ensures
        r == (job_group(class) == 4),
{
    let t = get_class_type(class);
    t == 4 || t == 11 || t == 12
}

/// Whether the class is a kurian or porutu of any tier.
pub fn is_portu_kurian(class: u16) -> (r: bool)
    ensures
        r == (job_group(class) == 5),
{
    let t = get_class_type(class);
    13 <= t && t <= 15
}

/// Whether the class is of the beginner tier.
pub fn is_beginner(class: u16) -> (r: bool)
    ensures
        r == (class_tier(class) == 0),
{
    let t = get_class_type(class);
    t == 1 || t == 2 || t == 3 || t == 4 || t == 13
}

/// Whether the class is of the novice tier.
pub fn is_novice(class: u16) -> (r: bool)
    ensures
        r == (class_tier(class) == 1),
{
    let t = get_class_type(class);
    t == 5 || t == 7 || t == 9 || t == 11 || t == 14
}

/// Whether the class is of the mastered tier.
pub fn is_mastered(class: u16) -> (r: bool)
    ensures
        r == (class_tier(class) == 2),
{
    let t = get_class_type(class);
    t == 6 || t == 8 || t == 10 || t == 12 || t == 15
}

/// Whether `class` already belongs to the job group `new_job` (1-5).
pub fn is_same_job_group(class: u16, new_job: u8) -> (r: bool)
    ensures
        r == (1 <= new_job <= 5 && job_group(class) == new_job),
{
    match new_job {
        1 => is_warrior(class),
        2 => is_rogue(class),
        3 => is_mage(class),
        4 => is_priest(class),
        5 => is_portu_kurian(class),
        _ => false,
    }
}

// ── Job change ───────────────────────────────────────────────────────

/// The class type that job group `job` reaches from tier `tier`.
///
/// A mastered class moving with a master scroll (`change_type == 1`) lands
/// on the novice class of its new group, else on the mastered one.
pub open spec fn promoted_class_type(job: int, tier: int, change_type: u8) -> int {
    if job == 5 {
        13 + tier
    } else if tier == 0 {
        job
    } else if tier == 1 {
        2 * job + 3
    } else if change_type == 1 {
        2 * job + 3
    } else {
        2 * job + 4
    }
}

/// An El Morad race that cannot play warriors (Porutu) becomes a barbarian;
/// one that cannot play rogues, mages or priests becomes a human man.
pub open spec fn elmorad_race_for(job: int, race: u8) -> u8 {
    if job == 1 {
        if race == PORUTU {
            BABARIAN
        } else {
            race
        }
    } else if job == 5 {
        PORUTU
    } else if race == BABARIAN || race == PORUTU {
        ELMORAD_MAN
    } else {
        race
    }
}

/// The Karus race that plays job group `job`.
pub open spec fn karus_race_for(job: int, race: u8) -> u8 {
    if job == 1 {
        KARUS_BIG
    } else if job == 2 {
        KARUS_MIDDLE
    } else if job == 3 {
        if race == KARUS_BIG || race == KARUS_MIDDLE || race == KURIAN {
            KARUS_SMALL
        } else {
            race
        }
    } else if job == 4 {
        if race == KARUS_BIG || race == KARUS_SMALL || race == KURIAN {
            KARUS_MIDDLE
        } else {
            race
        }
    } else {
        KURIAN
    }
}

/// The class and race after a job change to group `new_job`, or `None`
/// when `new_job` is not a group (1-5), the character already is in it,
/// or its class type is outside the table. Nation 1 is Karus; any other
/// nation takes the El Morad classes.
pub open spec fn job_change_target(
    class: u16,
    race: u8,
    nation: u8,
    new_job: u8,
    change_type: u8,
) -> Option<(u16, u8)> {
    if 1 <= new_job <= 5 && job_group(class) != new_job && class_tier(class) >= 0 {
        let ct = promoted_class_type(new_job as int, class_tier(class), change_type);
        if nation == 1 {
            Some(((100 + ct) as u16, karus_race_for(new_job as int, race)))
        } else {
            Some(((200 + ct) as u16, elmorad_race_for(new_job as int, race)))
        }
    } else {
        None
    }
}

/// Karus race for a job change.
fn karus_race(new_job: u8, race: u8) -> (r: u8)
    requires
        1 <= new_job <= 5,
    ensures
        r == karus_race_for(new_job as int, race),
{
    if new_job == 1 {
        KARUS_BIG
    } else if new_job == 2 {
        KARUS_MIDDLE
    } else if new_job == 3 {
        if race == KARUS_BIG || race == KARUS_MIDDLE || race == KURIAN {
            KARUS_SMALL
        } else {
            race
        }
    } else if new_job == 4 {
        if race == KARUS_BIG || race == KARUS_SMALL || race == KURIAN {
            KARUS_MIDDLE
        } else {
            race
        }
    } else {
        KURIAN
    }
}

/// El Morad race for a job change.
fn elmorad_race(new_job: u8, race: u8) -> (r: u8)
    requires
        1 <= new_job <= 5,
    ensures
        r == elmorad_race_for(new_job as int, race),
{
    if new_job == 1 {
        if race == PORUTU {
            BABARIAN
        } else {
            race
        }
    } else if new_job == 5 {
        PORUTU
    } else if race == BABARIAN || race == PORUTU {
        ELMORAD_MAN
    } else {
        race
    }
}

/// Determine the new class and race after a job change.
///
/// `new_job` is the target group (1 warrior, 2 rogue, 3 mage, 4 priest,
/// 5 kurian/porutu); the tier is kept, except that a mastered class with a
/// master scroll (`change_type == 1`) becomes the novice class of its new
/// group. Races that cannot play the new group are replaced.
pub fn determine_new_class_and_race(
    current_class: u16,
    current_race: u8,
    nation: u8,
    new_job: u8,
    change_type: u8,
) -> (r: Option<(u16, u8)>)
    ensures
        r == job_change_target(current_class, current_race, nation, new_job, change_type),
{
    if new_job < 1 || new_job > 5 || is_same_job_group(current_class, new_job) {
        return None;
    }
    let class_type: u16 = if is_beginner(current_class) {
        match new_job {
            1 => 1,
            2 => 2,
            3 => 3,
            4 => 4,
            _ => 13,
        }
    } else if is_novice(current_class) {
        match new_job {
            1 => 5,
            2 => 7,
            3 => 9,
            4 => 11,
            _ => 14,
        }
    } else if is_mastered(current_class) {
        match new_job {
            1 => if change_type == 1 { 5 } else { 6 },
            2 => if change_type == 1 { 7 } else { 8 },
            3 => if change_type == 1 { 9 } else { 10 },
            4 => if change_type == 1 { 11 } else { 12 },
            _ => 15,
        }
    } else {
        return None;
    };
    if nation == 1 {
        Some((100 + class_type, karus_race(new_job, current_race)))
    } else {
        Some((200 + class_type, elmorad_race(new_job, current_race)))
    }
}

/// A job change puts the character in the group it asked for, on the El
/// Morad or Karus side of its nation, at the tier it had (a mastered class
/// with a master scroll drops to novice).
pub proof fn lemma_job_change_lands_in_requested_group(
    class: u16,
    race: u8,
    nation: u8,
    new_job: u8,
    change_type: u8,
)
    requires
        job_change_target(class, race, nation, new_job, change_type) is Some,
    ensures
        ({
            let (new_class, _) = job_change_target(
                class,
                race,
                nation,
                new_job,
                change_type,
            ).unwrap();
            &&& job_group(new_class) == new_job
            &&& class_tier(new_class) == if class_tier(class) == 2 && change_type == 1 && new_job
                != 5 {
                1
            } else {
                class_tier(class)
            }
            &&& new_class / 100 == if nation == 1 {
                1int
            } else {
                2int
            }
        }),
{
}

/// The Karus races.
pub open spec fn is_karus_race(race: u8) -> bool {
    race == KARUS_BIG || race == KARUS_MIDDLE || race == KARUS_SMALL || race == KARUS_WOMAN || race == KURIAN
}

/// The El Morad races.
pub open spec fn is_elmorad_race(race: u8) -> bool {
    race == BABARIAN || race == ELMORAD_MAN || race == ELMORAD_WOMAN || race == PORUTU
}

/// Whether a race can play job group `job`: Karus warriors are big orcs,
/// rogues middle orcs, mages small orcs or women, priests middle orcs or
/// women and kurians kurians; El Morad warriors are barbarians, men or
/// women, rogues, mages and priests are men or women, and kurians are
/// porutus.
pub open spec fn race_plays(race: u8, job: int) -> bool {
    if job == 1 {
        race == KARUS_BIG || race == BABARIAN || race == ELMORAD_MAN || race == ELMORAD_WOMAN
    } else if job == 2 {
        race == KARUS_MIDDLE || race == ELMORAD_MAN || race == ELMORAD_WOMAN
    } else if job == 3 {
        race == KARUS_SMALL || race == KARUS_WOMAN || race == ELMORAD_MAN || race == ELMORAD_WOMAN
    } else if job == 4 {
        race == KARUS_MIDDLE || race == KARUS_WOMAN || race == ELMORAD_MAN || race == ELMORAD_WOMAN
    } else {
        race == KURIAN || race == PORUTU
    }
}

/// After a job change of a character whose race belongs to its nation, the
/// new race belongs to the nation and can play the new group; a race that
/// could already play it is kept.
pub proof fn lemma_job_change_race_plays_group(
    class: u16,
    race: u8,
    nation: u8,
    new_job: u8,
    change_type: u8,
)
    requires
        job_change_target(class, race, nation, new_job, change_type) is Some,
        nation == 1 ==> is_karus_race(race),
        nation != 1 ==> is_elmorad_race(race),
    ensures
        ({
            let (_, new_race) = job_change_target(class, race, nation, new_job, change_type).unwrap();
            &&& race_plays(new_race, new_job as int)
            &&& nation == 1 ==> is_karus_race(new_race)
            &&& nation != 1 ==> is_elmorad_race(new_race)
            &&& race_plays(race, new_job as int) ==> new_race == race
        }),
{
}

/// A character never changes into the job group it already belongs to.
pub proof fn lemma_same_group_never_changes(
    class: u16,
    race: u8,
    nation: u8,
    new_job: u8,
    change_type: u8,
)
    requires
        1 <= new_job <= 5,
        job_group(class) == new_job,
    ensures
        job_change_target(class, race, nation, new_job, change_type) is None,
{
}

/// Base stats (str, sta, dex, int, cha) of a class after a stat reset.
pub open spec fn base_stats(class: u16) -> (u8, u8, u8, u8, u8) {
    if job_group(class) == 1 || job_group(class) == 5 {
        (65, 65, 60, 50, 50)
    } else if job_group(class) == 2 {
        (60, 60, 70, 50, 50)
    } else {
        (50, 60, 60, 70, 50)
    }
}

/// After a stat reset every class has 290 points in all, and its main stat
/// is its highest: strength for warriors and kurians, dexterity for rogues,
/// intelligence for every other class.
pub proof fn lemma_base_stats_favour_main_stat(class: u16)
    ensures
        ({
            let (st, sa, dx, it, ch) = base_stats(class);
            let main: int = if job_group(class) == 1 || job_group(class) == 5 {
                st as int
            } else if job_group(class) == 2 {
                dx as int
            } else {
                it as int
            };
            &&& st + sa + dx + it + ch == 290
            &&& main >= st && main >= sa && main >= dx && main >= it && main >= ch
            &&& (job_group(class) == 2 ==> main > st && main > it)
            &&& (job_group(class) == 1 || job_group(class) == 5 ==> main > dx && main > it)
            &&& (!(job_group(class) == 1 || job_group(class) == 2 || job_group(class) == 5) ==> main > st
                && main > dx)
        }),
{
}

/// Base stats (str, sta, dex, int, cha) of a class after a stat reset:
/// warriors and kurians favour strength, rogues dexterity, and every other
/// class intelligence. Every class starts from the same total of 290.
pub fn get_base_stats_for_class(class: u16) -> (r: (u8, u8, u8, u8, u8))
    ensures
        r == base_stats(class),
        r.0 + r.1 + r.2 + r.3 + r.4 == 290,
{
    if is_warrior(class) || is_portu_kurian(class) {
        (65, 65, 60, 50, 50)
    } else if is_rogue(class) {
        (60, 60, 70, 50, 50)
    } else {
        (50, 60, 60, 70, 50)
    }
}

/// Answer to a class change query: 1 can change, 2 level below 10,
/// 3 already changed (a kurian beginner may still change).
pub fn class_change_req_result(level: u8, class: u16) -> (r: u8)
    ensures
        r == if level < 10 {
            2u8
        } else if class % 100 > 4 {
            if job_group(class) == 5 && class % 100 == 13 {
                1u8
            } else {
                3u8
            }
        } else {
            1u8
        },
{
    if level < 10 {
        2
    } else if get_class_type(class) > 4 {
        if is_portu_kurian(class) && get_class_type(class) == 13 {
            1
        } else {
            3
        }
    } else {
        1
    }
}

/// Outcome of a job change request.
#[derive(Debug, Clone, Copy, PartialEq, Eq, Structural)]
pub enum JobChangeOutcome {
    /// Refused with a result code: 4 equipment worn, 5 bad job or class,
    /// 6 no scroll or already in that group.
    Refused(u8),
    /// Accepted: consume `scroll_id`, then take `new_class` and `new_race`.
    Changed { scroll_id: u32, new_class: u16, new_race: u8 },
}

/// The scroll a job change of `change_type` consumes.
pub open spec fn job_change_scroll(change_type: u8) -> u32 {
    if change_type == 0 {
        ITEM_JOB_CHANGE
    } else {
        ITEM_JOB_CHANGE2
    }
}

/// Decide a job change request (`change_type` 0 normal, 1 master;
/// `new_job` 1-5) for a character holding `inventory`.
///
/// Checked in order: the request itself (5), the scroll in the bag (6),
/// the target group (6), worn equipment (4), the class table (5).
pub fn check_job_change(
    class: u16,
    race: u8,
    nation: u8,
    inventory: &Vec<ItemSlot>,
    change_type: u8,
    new_job: u8,
) -> (r: JobChangeOutcome)
    ensures
        r == if !(1 <= new_job <= 5) || (change_type != 0 && change_type != 1) {
            JobChangeOutcome::Refused(5)
        } else if !spec_bag_has_item(inventory@, job_change_scroll(change_type)) {
            JobChangeOutcome::Refused(6)
        } else if job_group(class) == new_job {
            JobChangeOutcome::Refused(6)
        } else if spec_wears_equipment(inventory@) {
            JobChangeOutcome::Refused(4)
        } else {
            match job_change_target(class, race, nation, new_job, change_type) {
                Some((c, rc)) => JobChangeOutcome::Changed {
                    scroll_id: job_change_scroll(change_type),
                    new_class: c,
                    new_race: rc,
                },
                None => JobChangeOutcome::Refused(5),
            }
        },
{
    if new_job < 1 || new_job > 5 || (change_type != 0 && change_type != 1) {
        return JobChangeOutcome::Refused(5);
    }
    let scroll_id = if change_type == 0 {
        ITEM_JOB_CHANGE
    } else {
        ITEM_JOB_CHANGE2
    };
    if !has_item_in_inventory(inventory, scroll_id) {
        return JobChangeOutcome::Refused(6);
    }
    if is_same_job_group(class, new_job) {
        return JobChangeOutcome::Refused(6);
    }
    if wears_equipment(inventory) {
        return JobChangeOutcome::Refused(4);
    }
    match determine_new_class_and_race(class, race, nation, new_job, change_type) {
        Some((new_class, new_race)) => JobChangeOutcome::Changed { scroll_id, new_class, new_race },
        None => JobChangeOutcome::Refused(5),
    }
}


/// Reset price after a discount: halved (rounding toward zero) when a
/// discount runs and the reset is not free.
pub fn effective_reset_money(money_required: i32, free: bool, discount_active: bool) -> (r: i32)
    ensures
        r == if !free && discount_active {
            if money_required >= 0 {
                money_required / 2
            } else {
                -((-money_required) / 2)
            }
        } else {
            money_required as int
        },
{
    if !free && discount_active {
        money_required / 2
    } else {
        money_required
    }
}

/// Cost in gold of a reset: nothing when free, else the effective price
/// (a negative price costs nothing).
pub fn reset_cost(effective_money: i32, free: bool) -> (r: u32)
    ensures
        r == if free || effective_money < 0 {
            0
        } else {
            effective_money as int
        },
{
    if free || effective_money < 0 {
        0
    } else {
        effective_money as u32
    }
}

/// Free stat points after a stat reset at `level`: 10, plus 3 per level
/// above 1, plus 2 more per level above 60.
pub open spec fn stat_reset_points(level: u8) -> int {
    10 + (level - 1) * 3 + if level > 60 {
        2 * (level - 60)
    } else {
        0
    }
}

/// A stat reset at level 1 leaves 10 free points, and each level above
/// gives 3 more, 5 more for the levels above 60.
pub proof fn lemma_stat_reset_points_per_level(level: u8)
    requires
        1 <= level < 255,
    ensures
        stat_reset_points(1) == 10,
        stat_reset_points((level + 1) as u8) - stat_reset_points(level) == if level + 1 > 60 {
            5int
        } else {
            3int
        },
{
}

/// Free stat points after a stat reset at `level` (at least 1).
pub fn stat_reset_free_points(level: u8) -> (r: u16)
    requires
        level >= 1,
    ensures
        r == stat_reset_points(level),
{
    let mut free_points: u16 = 10 + (level as u16 - 1) * 3;
    if level > 60 {
        free_points = free_points + 2 * (level as u16 - 60);
    }
    free_points
}

/// Free skill points after a skill reset at `level`: two per level above 9.
pub fn skill_reset_free_points(level: u8) -> (r: u16)
    ensures
        r == if level > 9 {
            2 * (level - 9)
        } else {
            0
        },
{
    let above: u8 = if level > 9 {
        level - 9
    } else {
        0
    };
    above as u16 * 2
}

/// The five character stats.
#[derive(Debug, Clone, Copy, PartialEq, Eq, Structural)]
pub struct StatBlock {
    pub str_val: u8,
    pub sta: u8,
    pub dex: u8,
    pub intel: u8,
    pub cha: u8,
}

/// The stats of a (str, sta, dex, int, cha) tuple.
pub open spec fn stat_block(t: (u8, u8, u8, u8, u8)) -> StatBlock {
    StatBlock { str_val: t.0, sta: t.1, dex: t.2, intel: t.3, cha: t.4 }
}

/// Outcome of a stat or skill point reset.
#[derive(Debug, Clone, Copy, PartialEq, Eq, Structural)]
pub enum ResetOutcome {
    /// Refused with a result code; the effective price goes along with it.
    Refused { code: u8, money: i32 },
    /// A stat reset: the base stats of the class, the free points and the
    /// gold left.
    Stats { stats: StatBlock, free_points: u16, gold: u32 },
    /// A skill reset: the free skill points (capped at 255) and the gold left.
    Skills { free_skill_points: u8, gold: u32 },
}

/// Decide a stat point reset (`ALL_POINT_CHANGE`) for a character of
/// `level` (at least 1) and `class` holding `gold` and `inventory`.
/// `money_required` is the price for its level.
///
/// Refused with 4 while equipment is worn, with 0 when the gold does not
/// cover the price; a free reset costs nothing.
pub fn all_point_change(
    level: u8,
    class: u16,
    gold: u32,
    inventory: &Vec<ItemSlot>,
    money_required: i32,
    free: bool,
    discount_active: bool,
) -> (r: ResetOutcome)
    requires
        level >= 1,
    ensures
        ({
            let money = effective_reset_money_spec(money_required, free, discount_active);
            let cost = if free || money < 0 {
                0
            } else {
                money
            };
            r == if spec_wears_equipment(inventory@) {
                ResetOutcome::Refused { code: 4, money: money_required }
            } else if !free && gold < cost {
                ResetOutcome::Refused { code: 0, money: money as i32 }
            } else {
                ResetOutcome::Stats {
                    stats: stat_block(base_stats(class)),
                    free_points: stat_reset_points(level) as u16,
                    gold: (gold - cost) as u32,
                }
            }
        }),
{
    if wears_equipment(inventory) {
        return ResetOutcome::Refused { code: 4, money: money_required };
    }
    let money = effective_reset_money(money_required, free, discount_active);
    let cost = reset_cost(money, free);
    if !free && gold < cost {
        return ResetOutcome::Refused { code: 0, money };
    }
    let (str_val, sta, dex, intel, cha) = get_base_stats_for_class(class);
    let stats = StatBlock { str_val, sta, dex, intel, cha };
    let free_points = stat_reset_free_points(level);
    let new_gold = if gold >= cost {
        gold - cost
    } else {
        0
    };
    ResetOutcome::Stats { stats, free_points, gold: new_gold }
}

/// The price after a discount, as `effective_reset_money` computes it.
pub open spec fn effective_reset_money_spec(money_required: i32, free: bool, discount_active: bool) -> int {
    if !free && discount_active {
        if money_required >= 0 {
            money_required / 2
        } else {
            -((-money_required) / 2)
        }
    } else {
        money_required as int
    }
}

/// Sum of the allocated skill points (indices 1 to 8).
pub open spec fn allocated_skill_points(skill_points: [u8; 10]) -> int {
    skill_points[1] + skill_points[2] + skill_points[3] + skill_points[4] + skill_points[5]
        + skill_points[6] + skill_points[7] + skill_points[8]
}

/// Decide a skill point reset (`ALL_SKILLPT_CHANGE`) for a character of
/// `level` holding `gold`, with `skill_points[0]` free and `[1..9]`
/// allocated. `money_required` is the price for its level.
///
/// Refused with 0 below level 10, with 2 when nothing is allocated, with 0
/// when the gold does not cover the price; a free reset costs nothing.
pub fn all_skill_point_change(
    level: u8,
    gold: u32,
    skill_points: [u8; 10],
    money_required: i32,
    free: bool,
    discount_active: bool,
) -> (r: ResetOutcome)
    ensures
        ({
            let money = effective_reset_money_spec(money_required, free, discount_active);
            let cost = if free || money < 0 {
                0
            } else {
                money
            };
            let points = if level > 9 {
                2 * (level - 9)
            } else {
                0
            };
            r == if level < 10 {
                ResetOutcome::Refused { code: 0, money: money_required }
            } else if allocated_skill_points(skill_points) == 0 {
                ResetOutcome::Refused { code: 2, money: money_required }
            } else if !free && gold < cost {
                ResetOutcome::Refused { code: 0, money: money as i32 }
            } else {
                ResetOutcome::Skills {
                    free_skill_points: if points > 255 {
                        255u8
                    } else {
                        points as u8
                    },
                    gold: (gold - cost) as u32,
                }
            }
        }),
{
    if level < 10 {
        return ResetOutcome::Refused { code: 0, money: money_required };
    }
    let mut total: u16 = 0;
    let mut i: usize = 1;
    while i < 9
        invariant
            1 <= i <= 9,
            total == {
                let sp = skill_points;
                if i == 1 {
                    0int
                } else if i == 2 {
                    sp[1] as int
                } else if i == 3 {
                    sp[1] + sp[2]
                } else if i == 4 {
                    sp[1] + sp[2] + sp[3]
                } else if i == 5 {
                    sp[1] + sp[2] + sp[3] + sp[4]
                } else if i == 6 {
                    sp[1] + sp[2] + sp[3] + sp[4] + sp[5]
                } else if i == 7 {
                    sp[1] + sp[2] + sp[3] + sp[4] + sp[5] + sp[6]
                } else if i == 8 {
                    sp[1] + sp[2] + sp[3] + sp[4] + sp[5] + sp[6] + sp[7]
                } else {
                    sp[1] + sp[2] + sp[3] + sp[4] + sp[5] + sp[6] + sp[7] + sp[8]
                }
            },
        decreases 9 - i,
    {
        total = total + skill_points[i] as u16;
        i = i + 1;
    }
    if total == 0 {
        return ResetOutcome::Refused { code: 2, money: money_required };
    }
    let money = effective_reset_money(money_required, free, discount_active);
    let cost = reset_cost(money, free);
    if !free && gold < cost {
        return ResetOutcome::Refused { code: 0, money };
    }
    let points = skill_reset_free_points(level);
    let free_skill_points: u8 = if points > 255 {
        255
    } else {
        points as u8
    };
    let new_gold = if gold >= cost {
        gold - cost
    } else {
        0
    };
    ResetOutcome::Skills { free_skill_points, gold: new_gold }
}

// ── Rebirth ──────────────────────────────────────────────────────────

/// Sum of the five stats.
pub open spec fn stat_total(s: StatBlock) -> int {
    s.str_val + s.sta + s.dex + s.intel + s.cha
}

/// `a + b`, capped at 255.
pub open spec fn sat_add_u8(a: u8, b: u8) -> u8 {
    if a + b > 255 {
        255
    } else {
        (a + b) as u8
    }
}

/// Outcome of a rebirth stat request.
#[derive(Debug, Clone, Copy, PartialEq, Eq, Structural)]
pub enum RebirthOutcome {
    /// Refused (result code 0).
    Refused,
    /// A rebirth: the new level and rebirth stats; experience drops to 0,
    /// the qualification item is consumed, and the rebirth quests are
    /// cleared while `clear_quests` holds.
    Reborn { rebirth_level: u8, stats: StatBlock, clear_quests: bool },
    /// A redistribution: the new rebirth stats and the gold left.
    Redistributed { stats: StatBlock, gold: u32 },
}

/// The outcome of a rebirth request: refused above rebirth level 9, when
/// the request does not add exactly 2 points, or without the qualification
/// item; else the points are added (each stat capped at 255) and the level
/// rises by one.
pub open spec fn rebirth_outcome(
    rebirth_level: u8,
    current: StatBlock,
    requested: StatBlock,
    has_qualification: bool,
) -> RebirthOutcome {
    if rebirth_level > 9 || stat_total(requested) != 2 || !has_qualification {
        RebirthOutcome::Refused
    } else {
        RebirthOutcome::Reborn {
            rebirth_level: (rebirth_level + 1) as u8,
            stats: StatBlock {
                str_val: sat_add_u8(current.str_val, requested.str_val),
                sta: sat_add_u8(current.sta, requested.sta),
                dex: sat_add_u8(current.dex, requested.dex),
                intel: sat_add_u8(current.intel, requested.intel),
                cha: sat_add_u8(current.cha, requested.cha),
            },
            clear_quests: rebirth_level + 1 < 9,
        }
    }
}

/// Decide a rebirth (`REB_STAT_CHANGE`): the character at `rebirth_level`
/// with rebirth stats `current` asks for the points `requested`.
pub fn reb_stat_change(
    rebirth_level: u8,
    current: StatBlock,
    requested: StatBlock,
    has_qualification: bool,
) -> (r: RebirthOutcome)
    ensures
        r == rebirth_outcome(rebirth_level, current, requested, has_qualification),
{
    if rebirth_level > 9 {
        return RebirthOutcome::Refused;
    }
    let total: u16 = requested.str_val as u16 + requested.sta as u16 + requested.dex as u16
        + requested.intel as u16 + requested.cha as u16;
    if total != 2 {
        return RebirthOutcome::Refused;
    }
    if !has_qualification {
        return RebirthOutcome::Refused;
    }
    let new_level = rebirth_level + 1;
    let stats = StatBlock {
        str_val: current.str_val.saturating_add(requested.str_val),
        sta: current.sta.saturating_add(requested.sta),
        dex: current.dex.saturating_add(requested.dex),
        intel: current.intel.saturating_add(requested.intel),
        cha: current.cha.saturating_add(requested.cha),
    };
    RebirthOutcome::Reborn { rebirth_level: new_level, stats, clear_quests: new_level < 9 }
}

/// The outcome of a rebirth stat redistribution: refused before the first
/// rebirth, when `requested` does not add up to twice the rebirth level,
/// or when the gold does not cover the 100M price (premium types 12 and 13
/// redistribute for free); else the stats become `requested`.
pub open spec fn redistribution_outcome(
    rebirth_level: u8,
    requested: StatBlock,
    premium_type: u8,
    gold: u32,
) -> RebirthOutcome {
    let free = premium_type == PREMIUM_REBIRTH_FREE_1 || premium_type == PREMIUM_REBIRTH_FREE_2;
    if rebirth_level == 0 || stat_total(requested) != 2 * rebirth_level || (!free && gold
        < REBIRTH_RESET_GOLD) {
        RebirthOutcome::Refused
    } else {
        RebirthOutcome::Redistributed {
            stats: requested,
            gold: if free {
                gold
            } else {
                (gold - REBIRTH_RESET_GOLD) as u32
            },
        }
    }
}

/// Decide a rebirth stat redistribution (`REB_STAT_RESET`) for a character
/// at `rebirth_level` holding `gold` under premium `premium_type`.
pub fn reb_stat_reset(
    rebirth_level: u8,
    requested: StatBlock,
    premium_type: u8,
    gold: u32,
) -> (r: RebirthOutcome)
    ensures
        r == redistribution_outcome(rebirth_level, requested, premium_type, gold),
{
    if rebirth_level == 0 {
        return RebirthOutcome::Refused;
    }
    let total: u16 = requested.str_val as u16 + requested.sta as u16 + requested.dex as u16
        + requested.intel as u16 + requested.cha as u16;
    let required_total: u16 = rebirth_level as u16 * 2;
    if total != required_total {
        return RebirthOutcome::Refused;
    }
    let free = premium_type == PREMIUM_REBIRTH_FREE_1 || premium_type == PREMIUM_REBIRTH_FREE_2;
    if !free {
        if gold < REBIRTH_RESET_GOLD {
            return RebirthOutcome::Refused;
        }
        return RebirthOutcome::Redistributed { stats: requested, gold: gold - REBIRTH_RESET_GOLD };
    }
    RebirthOutcome::Redistributed { stats: requested, gold }
}

/// A rebirth adds exactly two points to the rebirth stats (when no stat
/// is at the cap) and one rebirth level.
pub proof fn lemma_rebirth_adds_two_points(
    rebirth_level: u8,
    current: StatBlock,
    requested: StatBlock,
    has_qualification: bool,
)
    requires
        rebirth_outcome(rebirth_level, current, requested, has_qualification) is Reborn,
        current.str_val <= 253,
        current.sta <= 253,
        current.dex <= 253,
        current.intel <= 253,
        current.cha <= 253,
    ensures
        ({
            let r = rebirth_outcome(rebirth_level, current, requested, has_qualification);
            &&& stat_total(r->Reborn_stats) == stat_total(current) + 2
            &&& r->Reborn_rebirth_level == rebirth_level + 1
        }),
{
}

/// After a redistribution the rebirth stats hold exactly the points earned:
/// two per rebirth level.
pub proof fn lemma_redistribution_keeps_earned_points(
    rebirth_level: u8,
    requested: StatBlock,
    premium_type: u8,
    gold: u32,
)
    requires
        redistribution_outcome(rebirth_level, requested, premium_type, gold) is Redistributed,
    ensures
        stat_total(
            redistribution_outcome(rebirth_level, requested, premium_type, gold)->Redistributed_stats,
        ) == 2 * rebirth_level,
{
}

// ── Replies ──────────────────────────────────────────────────────────

/// The answer to a class-change request, with the code of
/// `class_change_req_result`.
pub fn build_class_change_result(code: u8) -> (r: Packet)
    ensures
        r.opcode == WIZ_CLASS_CHANGE,
        r.data@ == seq![CLASS_CHANGE_RESULT, code],
{
    let mut pkt = Packet::new(WIZ_CLASS_CHANGE);
    pkt.write_u8(CLASS_CHANGE_RESULT);
    pkt.write_u8(code);
    assert(pkt.data@ =~= seq![CLASS_CHANGE_RESULT, code]);
    pkt
}

/// A refused reset (`sub` is the stat or the skill reset): the refusal code
/// and the price as a signed 32-bit number.
pub fn build_reset_refused(sub: u8, code: u8, money: i32) -> (r: Packet)
    ensures
        r.opcode == WIZ_CLASS_CHANGE,
        r.data@ == seq![sub, code] + le4(twos(money as int, 32)),
{
    let mut pkt = Packet::new(WIZ_CLASS_CHANGE);
    pkt.write_u8(sub);
    pkt.write_u8(code);
    pkt.write_i32(money);
    assert(pkt.data@ =~= seq![sub, code] + le4(twos(money as int, 32)));
    pkt
}

/// The answer to a granted stat reset: success, the gold left, the five
/// base stats (16 bits each), the maximum hit and mana points, the total
/// hit, the maximum weight and the free points.
pub fn build_stat_reset_success(
    new_gold: u32,
    stats: (u8, u8, u8, u8, u8),
    max_hp: i16,
    max_mp: i16,
    total_hit: u16,
    max_weight: u32,
    free_points: u16,
) -> (r: Packet)
    ensures
        r.opcode == WIZ_CLASS_CHANGE,
        r.data@ == seq![ALL_POINT_CHANGE, 1u8] + le4(new_gold as int) + le2(stats.0 as int) + le2(stats.1 as int)
            + le2(stats.2 as int) + le2(stats.3 as int) + le2(stats.4 as int) + le2(twos(max_hp as int, 16))
            + le2(twos(max_mp as int, 16)) + le2(total_hit as int) + le4(max_weight as int) + le2(
            free_points as int,
        ),
{
    let mut pkt = Packet::new(WIZ_CLASS_CHANGE);
    pkt.write_u8(ALL_POINT_CHANGE);
    pkt.write_u8(1);
    pkt.write_u32(new_gold);
    pkt.write_u16(stats.0 as u16);
    pkt.write_u16(stats.1 as u16);
    pkt.write_u16(stats.2 as u16);
    pkt.write_u16(stats.3 as u16);
    pkt.write_u16(stats.4 as u16);
    let ghost mid = pkt.data@;
    assert(mid =~= seq![ALL_POINT_CHANGE, 1u8] + le4(new_gold as int) + le2(stats.0 as int) + le2(stats.1 as int)
        + le2(stats.2 as int) + le2(stats.3 as int) + le2(stats.4 as int));
    pkt.write_i16(max_hp);
    pkt.write_i16(max_mp);
    pkt.write_u16(total_hit);
    pkt.write_u32(max_weight);
    pkt.write_u16(free_points);
    assert(pkt.data@ =~= mid + (le2(twos(max_hp as int, 16)) + le2(twos(max_mp as int, 16)) + le2(total_hit as int)
        + le4(max_weight as int) + le2(free_points as int)));
    pkt
}

/// The answer to a granted skill reset: success, the gold left and the
/// free skill points (at most 255).
pub fn build_skill_reset_success(new_gold: u32, free_skill_points: u16) -> (r: Packet)
    ensures
        r.opcode == WIZ_CLASS_CHANGE,
        r.data@ == seq![ALL_SKILLPT_CHANGE, 1u8] + le4(new_gold as int) + seq![if free_skill_points < 255 {
            free_skill_points as u8
        } else {
            255u8
        }],
{
    let mut pkt = Packet::new(WIZ_CLASS_CHANGE);
    pkt.write_u8(ALL_SKILLPT_CHANGE);
    pkt.write_u8(1);
    pkt.write_u32(new_gold);
    pkt.write_u8(if free_skill_points < 255 { free_skill_points as u8 } else { 255 });
    assert(pkt.data@ =~= seq![ALL_SKILLPT_CHANGE, 1u8] + le4(new_gold as int) + seq![if free_skill_points < 255 {
        free_skill_points as u8
    } else {
        255u8
    }]);
    pkt
}

/// The price of a reset, as asked for.
pub fn build_change_money(money: i32) -> (r: Packet)
    ensures
        r.opcode == WIZ_CLASS_CHANGE,
        r.data@ == seq![CHANGE_MONEY_REQ] + le4(twos(money as int, 32)),
{
    let mut pkt = Packet::new(WIZ_CLASS_CHANGE);
    pkt.write_u8(CHANGE_MONEY_REQ);
    pkt.write_i32(money);
    assert(pkt.data@ =~= seq![CHANGE_MONEY_REQ] + le4(twos(money as int, 32)));
    pkt
}

/// The answer to a job change, with its result code.
pub fn build_job_change_result(code: u8) -> (r: Packet)
    ensures
        r.opcode == WIZ_CLASS_CHANGE,
        r.data@ == seq![PROMOTE_NOVICE, code],
{
    let mut pkt = Packet::new(WIZ_CLASS_CHANGE);
    pkt.write_u8(PROMOTE_NOVICE);
    pkt.write_u8(code);
    assert(pkt.data@ =~= seq![PROMOTE_NOVICE, code]);
    pkt
}

/// The answer to a rebirth stat change or reset (`sub`): the result and a
/// zero 32-bit field.
pub fn build_reb_result(sub: u8, result: u8) -> (r: Packet)
    ensures
        r.opcode == WIZ_CLASS_CHANGE,
        r.data@ == seq![sub, result] + le4(0),
{
    let mut pkt = Packet::new(WIZ_CLASS_CHANGE);
    pkt.write_u8(sub);
    pkt.write_u8(result);
    pkt.write_u32(0);
    assert(pkt.data@ =~= seq![sub, result] + le4(0));
    pkt
}


/// A class change request as the client sends it.
#[derive(Debug, Clone, Copy, PartialEq, Eq, Structural)]
pub enum ClassChangeRequest {
    /// Ask whether a class change is open.
    ClassChange,
    /// Reset all stat points.
    StatReset,
    /// Reset all skill points.
    SkillReset,
    /// Ask the price of a reset of the given kind.
    ChangeMoney { sub_type: u8 },
    /// Change job.
    PromoteNovice { change_type: u8, new_job: u8 },
    /// Rebirth stat change, with the five requested points.
    RebStatChange { stats: StatBlock },
    /// Rebirth stat reset, with the five requested points.
    RebStatReset { stats: StatBlock },
    /// Any other sub-opcode: no answer.
    Unknown(u8),
}

/// The five one-byte stat fields from `p` on, each zero when missing.
pub open spec fn five_stats(d: Seq<u8>, p: int) -> StatBlock {
    let (a, p1) = field_u8(d, p);
    let (b, p2) = field_u8(d, p1);
    let (c, p3) = field_u8(d, p2);
    let (e, p4) = field_u8(d, p3);
    let (f, _p5) = field_u8(d, p4);
    StatBlock { str_val: a, sta: b, dex: c, intel: e, cha: f }
}

/// A class change request: the sub-opcode (zero when missing), then the
/// one-byte fields that its kind carries, each zero when missing.
pub open spec fn class_change_request_matches(r: ClassChangeRequest, d: Seq<u8>) -> bool {
    let (sub, p1) = field_u8(d, 0);
    let (x, p2) = field_u8(d, p1);
    let (y, _p3) = field_u8(d, p2);
    if sub == CLASS_CHANGE_REQ {
        r is ClassChange
    } else if sub == ALL_POINT_CHANGE {
        r is StatReset
    } else if sub == ALL_SKILLPT_CHANGE {
        r is SkillReset
    } else if sub == CHANGE_MONEY_REQ {
        r == ClassChangeRequest::ChangeMoney { sub_type: x }
    } else if sub == PROMOTE_NOVICE {
        r == ClassChangeRequest::PromoteNovice { change_type: x, new_job: y }
    } else if sub == REB_STAT_CHANGE {
        r == ClassChangeRequest::RebStatChange { stats: five_stats(d, p1) }
    } else if sub == REB_STAT_RESET {
        r == ClassChangeRequest::RebStatReset { stats: five_stats(d, p1) }
    } else {
        r == ClassChangeRequest::Unknown(sub)
    }
}

/// Reads the five stat fields.
fn take_five_stats(rd: &mut PacketReader) -> (v: StatBlock)
    requires
        old(rd).wf(),
    ensures
        final(rd).wf(),
        final(rd).bytes() == old(rd).bytes(),
        v == five_stats(old(rd).bytes(), old(rd).position()),
{
    let a = take_u8(rd);
    let b = take_u8(rd);
    let c = take_u8(rd);
    let e = take_u8(rd);
    let f = take_u8(rd);
    StatBlock { str_val: a, sta: b, dex: c, intel: e, cha: f }
}

/// Reads a class change request.
pub fn parse_class_change_request(data: &[u8]) -> (r: ClassChangeRequest)
    ensures
        class_change_request_matches(r, data@),
{
    let mut rd = PacketReader::new(data);
    let sub = take_u8(&mut rd);
    if sub == CLASS_CHANGE_REQ {
        ClassChangeRequest::ClassChange
    } else if sub == ALL_POINT_CHANGE {
        ClassChangeRequest::StatReset
    } else if sub == ALL_SKILLPT_CHANGE {
        ClassChangeRequest::SkillReset
    } else if sub == CHANGE_MONEY_REQ {
        let sub_type = take_u8(&mut rd);
        ClassChangeRequest::ChangeMoney { sub_type }
    } else if sub == PROMOTE_NOVICE {
        let change_type = take_u8(&mut rd);
        let new_job = take_u8(&mut rd);
        ClassChangeRequest::PromoteNovice { change_type, new_job }
    } else if sub == REB_STAT_CHANGE {
        let stats = take_five_stats(&mut rd);
        ClassChangeRequest::RebStatChange { stats }
    } else if sub == REB_STAT_RESET {
        let stats = take_five_stats(&mut rd);
        ClassChangeRequest::RebStatReset { stats }
    } else {
        ClassChangeRequest::Unknown(sub)
    }
}

} // verus!
