//! The Hermetic Seal panel: a wheel of 24 slots whose seal rises by one
//! star, up to nine, each time a two-hour timer completes. This module holds
//! the integer side of the seal; the timer itself is kept in seconds as a
//! floating-point number by the network layer, which tells the upgrade
//! decision whether the timer has completed.

use vstd::prelude::*;
use crate::packet::{Packet, le2, le4, twos};

verus! {

/// The Hermetic Seal opcode.
pub const WIZ_ABILITY: u8 = 0xCF;

/// Reply sub-type: the full state, when the panel opens.
pub const ABILITY_SUB_INIT: u8 = 1;

/// Reply sub-type: a result or status notice.
pub const ABILITY_SUB_RESULT: u8 = 2;

/// Reply sub-type: the result of an upgrade.
pub const ABILITY_SUB_LEVEL_UP: u8 = 3;

/// Reply sub-type: an error with a detail code.
pub const ABILITY_SUB_ERROR_DETAIL: u8 = 4;

/// Reply sub-type: the result for an upgrade item.
pub const ABILITY_SUB_ITEM_RESULT: u8 = 5;

/// Reply sub-type: the selected slot changed.
pub const ABILITY_SUB_SLOT_UPDATE: u8 = 6;

/// Result notice: close the panel.
pub const RESULT_CLOSE: u8 = 2;

/// Result notice: success.
pub const RESULT_SUCCESS: u8 = 3;

/// Upgrade result: the seal gained a star.
pub const LEVEL_UP_SUCCESS: u8 = 1;

/// Upgrade result: the upgrade failed.
pub const LEVEL_UP_FAILED: u8 = 2;

/// Item result: close the panel.
pub const ITEM_RESULT_CLOSE: u8 = 2;

/// Slots on the wheel.
pub const MAX_SLOTS: u8 = 24;

/// Stars a seal can reach.
pub const MAX_LEVEL: u8 = 9;

/// Seconds the timer runs before an upgrade is possible (two hours).
pub const TOTAL_PROGRESS_SECS: u32 = 7200;

/// Seconds one progress tick adds.
pub const PROGRESS_TICK_SECS: u32 = 2;

/// A tier or level as the panel shows it: at most nine.
pub fn shown_level(level: u8) -> (r: u8)
    ensures
        r == if level < MAX_LEVEL {
            level
        } else {
            MAX_LEVEL
        },
{
    if level < MAX_LEVEL {
        level
    } else {
        MAX_LEVEL
    }
}

/// A slot as the panel shows it: wrapped onto the wheel.
pub fn shown_slot(slot: u8) -> (r: u8)
    ensures
        r == slot % MAX_SLOTS,
{
    slot % MAX_SLOTS
}

/// A slot may be selected when it lies on the wheel.
pub fn slot_selectable(slot: u8) -> (r: bool)
    ensures
        r == (slot < MAX_SLOTS),
{
    slot < MAX_SLOTS
}

/// The integer state of a player's seal.
#[derive(Debug, Clone, Copy, PartialEq, Eq, Structural)]
pub struct SealLevels {
    /// The highest level ever reached.
    pub max_tier: u8,
    /// How many upgrades were made.
    pub upgrade_count: u8,
    /// The current level (stars).
    pub current_level: u8,
}

/// The answer to an upgrade request.
#[derive(Debug, Clone, Copy, PartialEq, Eq, Structural)]
pub enum UpgradeOutcome {
    /// No seal is loaded: close the panel through the item result.
    NotLoaded,
    /// The timer is still running or the seal is at nine stars: close the
    /// panel through the result notice.
    Refused,
    /// The seal rose to these levels; the timer starts again from zero.
    Upgraded(SealLevels),
}

/// The seal after a granted upgrade: one more star (never past nine), one
/// more upgrade counted (saturating), and the highest level raised to the
/// new level when it is higher.
pub open spec fn upgraded(s: SealLevels) -> SealLevels {
    let level: u8 = if s.current_level + 1 > MAX_LEVEL {
        MAX_LEVEL
    } else {
        (s.current_level + 1) as u8
    };
    SealLevels {
        max_tier: if level > s.max_tier {
            level
        } else {
            s.max_tier
        },
        upgrade_count: if s.upgrade_count == u8::MAX {
            u8::MAX
        } else {
            (s.upgrade_count + 1) as u8
        },
        current_level: level,
    }
}

/// Decides an upgrade request: `loaded` says whether the player's seal is
/// loaded and `timer_complete` whether its timer has run its two hours.
pub fn seal_upgrade(loaded: bool, timer_complete: bool, levels: SealLevels) -> (r: UpgradeOutcome)
    ensures
        !loaded ==> r == UpgradeOutcome::NotLoaded,
        loaded && (!timer_complete || levels.current_level >= MAX_LEVEL) ==> r
            == UpgradeOutcome::Refused,
        loaded && timer_complete && levels.current_level < MAX_LEVEL ==> r == UpgradeOutcome::Upgraded(
            upgraded(levels),
        ),
{
    if !loaded {
        return UpgradeOutcome::NotLoaded;
    }
    if !timer_complete || levels.current_level >= MAX_LEVEL {
        return UpgradeOutcome::Refused;
    }
    let next = levels.current_level + 1;
    let level = if next > MAX_LEVEL { MAX_LEVEL } else { next };
    UpgradeOutcome::Upgraded(
        SealLevels {
            max_tier: if level > levels.max_tier { level } else { levels.max_tier },
            upgrade_count: levels.upgrade_count.saturating_add(1),
            current_level: level,
        },
    )
}

/// The seal's status after the player confirms: a loaded seal becomes
/// active (status 0); otherwise nothing changes.
pub fn confirmed_status(loaded: bool, status: u8) -> (r: u8)
    ensures
        r == if loaded {
            0
        } else {
            status
        },
{
    if loaded {
        0
    } else {
        status
    }
}

/// A granted upgrade adds exactly one star, keeps the seal at nine stars
/// or fewer, and leaves the highest level at least the current one.
pub proof fn lemma_upgrade_bounded(s: SealLevels)
    requires
        s.current_level < MAX_LEVEL,
    ensures
        upgraded(s).current_level == s.current_level + 1,
        upgraded(s).current_level <= MAX_LEVEL,
        upgraded(s).max_tier >= upgraded(s).current_level,
        upgraded(s).max_tier >= s.max_tier,
{
}

/// A level as the panel shows it: at most nine.
pub open spec fn capped(level: u8) -> u8 {
    if level < MAX_LEVEL {
        level
    } else {
        MAX_LEVEL
    }
}

/// The full state of the seal for an opening panel: a check byte of one,
/// the highest tier and the current level (each at most nine), the selected
/// slot (wrapped onto the wheel), the status, the upgrade count, and the
/// timer's eight bytes (the little-endian form of its seconds).
pub fn build_init(
    max_tier: u8,
    selected_slot: u8,
    status: u8,
    upgrade_count: u8,
    current_level: u8,
    elapsed_time: [u8; 8],
) -> (r: Packet)
    ensures
        r.opcode == WIZ_ABILITY,
        r.data@ == seq![ABILITY_SUB_INIT, 1u8, capped(max_tier), selected_slot % MAX_SLOTS, status, upgrade_count, capped(current_level)]
            + elapsed_time@,
{
    let mut pkt = Packet::new(WIZ_ABILITY);
    pkt.write_u8(ABILITY_SUB_INIT);
    pkt.write_u8(1);
    pkt.write_u8(shown_level(max_tier));
    pkt.write_u8(shown_slot(selected_slot));
    pkt.write_u8(status);
    pkt.write_u8(upgrade_count);
    pkt.write_u8(shown_level(current_level));
    pkt.write_bytes(&elapsed_time);
    assert(pkt.data@ =~= seq![ABILITY_SUB_INIT, 1u8, capped(max_tier), selected_slot % MAX_SLOTS, status, upgrade_count, capped(current_level)]
        + elapsed_time@);
    pkt
}

/// The state shown when no seal is loaded: tier and slot zero, paused
/// (status one), no upgrades, level zero, no time elapsed.
pub fn build_init_empty() -> (r: Packet)
    ensures
        r.opcode == WIZ_ABILITY,
        r.data@ == seq![ABILITY_SUB_INIT, 1u8, 0u8, 0u8, 1u8, 0u8, 0u8, 0u8, 0u8, 0u8, 0u8, 0u8, 0u8, 0u8, 0u8],
{
    let r = build_init(0, 0, 1, 0, 0, [0u8; 8]);
    assert(r.data@ =~= seq![ABILITY_SUB_INIT, 1u8, 0u8, 0u8, 1u8, 0u8, 0u8, 0u8, 0u8, 0u8, 0u8, 0u8, 0u8, 0u8, 0u8]);
    r
}

/// A result notice.
pub fn build_result(result: u8) -> (r: Packet)
    ensures
        r.opcode == WIZ_ABILITY,
        r.data@ == seq![ABILITY_SUB_RESULT, result],
{
    let mut pkt = Packet::new(WIZ_ABILITY);
    pkt.write_u8(ABILITY_SUB_RESULT);
    pkt.write_u8(result);
    assert(pkt.data@ =~= seq![ABILITY_SUB_RESULT, result]);
    pkt
}

/// The result of an upgrade.
pub fn build_level_up_result(result: u8) -> (r: Packet)
    ensures
        r.opcode == WIZ_ABILITY,
        r.data@ == seq![ABILITY_SUB_LEVEL_UP, result],
{
    let mut pkt = Packet::new(WIZ_ABILITY);
    pkt.write_u8(ABILITY_SUB_LEVEL_UP);
    pkt.write_u8(result);
    assert(pkt.data@ =~= seq![ABILITY_SUB_LEVEL_UP, result]);
    pkt
}

/// The item result that closes the panel.
pub fn build_item_result_close() -> (r: Packet)
    ensures
        r.opcode == WIZ_ABILITY,
        r.data@ == seq![ABILITY_SUB_ITEM_RESULT, ITEM_RESULT_CLOSE],
{
    let mut pkt = Packet::new(WIZ_ABILITY);
    pkt.write_u8(ABILITY_SUB_ITEM_RESULT);
    pkt.write_u8(ITEM_RESULT_CLOSE);
    assert(pkt.data@ =~= seq![ABILITY_SUB_ITEM_RESULT, ITEM_RESULT_CLOSE]);
    pkt
}

/// An error with its detail code.
pub fn build_error_detail(error_code: u8) -> (r: Packet)
    ensures
        r.opcode == WIZ_ABILITY,
        r.data@ == seq![ABILITY_SUB_ERROR_DETAIL, error_code],
{
    let mut pkt = Packet::new(WIZ_ABILITY);
    pkt.write_u8(ABILITY_SUB_ERROR_DETAIL);
    pkt.write_u8(error_code);
    assert(pkt.data@ =~= seq![ABILITY_SUB_ERROR_DETAIL, error_code]);
    pkt
}

/// Item result: success with an item.
pub const ITEM_RESULT_SUCCESS: u8 = 1;

/// The item result of a success: the item and a zero 16-bit field.
pub fn build_item_result_success(item_id: i32) -> (r: Packet)
    ensures
        r.opcode == WIZ_ABILITY,
        r.data@ == seq![ABILITY_SUB_ITEM_RESULT, ITEM_RESULT_SUCCESS] + le4(twos(item_id as int, 32)) + le2(0),
{
    let mut pkt = Packet::new(WIZ_ABILITY);
    pkt.write_u8(ABILITY_SUB_ITEM_RESULT);
    pkt.write_u8(ITEM_RESULT_SUCCESS);
    pkt.write_i32(item_id);
    pkt.write_u16(0);
    assert(pkt.data@ =~= seq![ABILITY_SUB_ITEM_RESULT, ITEM_RESULT_SUCCESS] + le4(twos(item_id as int, 32)) + le2(0));
    pkt
}

/// The selected slot changed: a check byte of one, an ignored zero, the
/// highest tier (at most nine), the slot (wrapped onto the wheel), the
/// status, the upgrade count and four zero fields.
pub fn build_slot_update(max_tier: u8, selected_slot: u8, status: u8, upgrade_count: u8) -> (r: Packet)
    ensures
        r.opcode == WIZ_ABILITY,
        r.data@ == seq![ABILITY_SUB_SLOT_UPDATE, 1u8, 0u8, capped(max_tier), selected_slot % MAX_SLOTS, status, upgrade_count, 0u8, 0u8, 0u8, 0u8],
{
    let mut pkt = Packet::new(WIZ_ABILITY);
    pkt.write_u8(ABILITY_SUB_SLOT_UPDATE);
    pkt.write_u8(1);
    pkt.write_u8(0);
    pkt.write_u8(shown_level(max_tier));
    pkt.write_u8(shown_slot(selected_slot));
    pkt.write_u8(status);
    pkt.write_u8(upgrade_count);
    pkt.write_u8(0);
    pkt.write_u8(0);
    pkt.write_u8(0);
    pkt.write_u8(0);
    assert(pkt.data@ =~= seq![ABILITY_SUB_SLOT_UPDATE, 1u8, 0u8, capped(max_tier), selected_slot % MAX_SLOTS, status, upgrade_count, 0u8, 0u8, 0u8, 0u8]);
    pkt
}

} // verus!
