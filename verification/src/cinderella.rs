//! Cinderella War (Fun Class) event.
//!
//! Players sign up during the prepare phase and receive a preset class of
//! their nation; during the war phase they may switch class (every 80 s)
//! or nation (every 90 s). Kills and deaths are counted per player and per
//! nation. When the war ends the players are ranked per nation, the best
//! 200 of each nation are rewarded, and every participant gets back the
//! character it had before signing up.

pub mod sub_opcode;

use std::vec::Vec;
use vstd::prelude::*;

use crate::world::{spec_empty_slot, ItemSlot};
use crate::class_change::{job_group, class_tier, race_plays, is_karus_race, is_elmorad_race};
use crate::packet::{Packet, le2, le4};

verus! {

/// Number of setting tiers (0-4).
pub const MAX_SETTING_TIERS: usize = 5;

/// Number of classes in the event (warrior 0, rogue 1, mage 2, priest 3,
/// kurian 4).
pub const MAX_CLASSES: usize = 5;

/// Cooldown between class changes, in seconds.
pub const CLASS_CHANGE_COOLDOWN_SECS: u64 = 80;

/// Cooldown between nation changes, in seconds.
pub const NATION_CHANGE_COOLDOWN_SECS: u64 = 90;

/// Cooldown after a failed attempt, in seconds.
pub const ERROR_COOLDOWN_SECS: u64 = 5;

/// Number of players of each nation that a finished war rewards.
pub const REWARDED_RANKS: u32 = 200;

// ── State ────────────────────────────────────────────────────────────

/// Per-player Cinderella War state, with the character the player had
/// before signing up so that it can be given back.
#[derive(Debug, Clone)]
pub struct CindirellaPlayerState {
    /// Whether the player takes part in the event.
    pub event_user: bool,
    /// Whether the player has not selected a class yet.
    pub first_selected: bool,
    pub original_class: u16,
    pub original_race: u8,
    pub original_nation: u8,
    pub original_level: u8,
    pub original_exp: u64,
    pub original_gold: u32,
    /// Original stats [STR, STA, DEX, INT, CHA].
    pub original_stats: [u8; 5],
    pub original_stat_points: u16,
    pub original_inventory: Vec<ItemSlot>,
    /// Nation in the event (a nation change makes it differ from the original).
    pub event_nation: u8,
    /// Selected class index (0-4).
    pub selected_class: u8,
    pub kill_count: u16,
    pub dead_count: u16,
    /// Experience won in the event, given on top of the original.
    pub gained_exp: u64,
    /// Gold won in the event, given on top of the original.
    pub gained_noah: u32,
    /// Unix time at which the class may change again.
    pub class_change_cooldown: u64,
    /// Unix time at which the nation may change again.
    pub nation_change_cooldown: u64,
}

impl Default for CindirellaPlayerState {
    fn default() -> (r: Self)
        ensures
            !r.event_user,
            r.first_selected,
            r.original_class == 0,
            r.original_race == 0,
            r.original_nation == 0,
            r.original_level == 0,
            r.original_exp == 0,
            r.original_gold == 0,
            r.original_stats@ == seq![0u8, 0u8, 0u8, 0u8, 0u8],
            r.original_stat_points == 0,
            r.original_inventory@.len() == 0,
            r.event_nation == 0,
            r.selected_class == 0,
            r.kill_count == 0,
            r.dead_count == 0,
            r.gained_exp == 0,
            r.gained_noah == 0,
            r.class_change_cooldown == 0,
            r.nation_change_cooldown == 0,
    {
        CindirellaPlayerState {
            event_user: false,
            first_selected: true,
            original_class: 0,
            original_race: 0,
            original_nation: 0,
            original_level: 0,
            original_exp: 0,
            original_gold: 0,
            original_stats: [0u8; 5],
            original_stat_points: 0,
            original_inventory: Vec::new(),
            event_nation: 0,
            selected_class: 0,
            kill_count: 0,
            dead_count: 0,
            gained_exp: 0,
            gained_noah: 0,
            class_change_cooldown: 0,
            nation_change_cooldown: 0,
        }
    }
}

/// Event lifecycle: the prepare (registration) phase, then the war phase.
#[derive(Debug, Clone, Copy, PartialEq, Eq, Structural)]
pub struct CindirellaEventState {
    /// The prepare phase runs.
    pub prepare: bool,
    /// The war phase runs.
    pub start: bool,
    /// Unix time at which the prepare phase ends.
    pub prepare_time: u64,
    /// Unix time at which the war phase ends.
    pub finish_time: u64,
    /// Active setting tier (0-4).
    pub setting_id: u8,
    pub elmorad_kills: u16,
    pub karus_kills: u16,
}

/// The idle event: no phase, no timers, no kills.
pub open spec fn idle_event() -> CindirellaEventState {
    CindirellaEventState {
        prepare: false,
        start: false,
        prepare_time: 0,
        finish_time: 0,
        setting_id: 0,
        elmorad_kills: 0,
        karus_kills: 0,
    }
}

impl Default for CindirellaEventState {
    fn default() -> (r: Self)
        ensures
            r == idle_event(),
    {
        CindirellaEventState {
            prepare: false,
            start: false,
            prepare_time: 0,
            finish_time: 0,
            setting_id: 0,
            elmorad_kills: 0,
            karus_kills: 0,
        }
    }
}

impl CindirellaEventState {
    /// Whether a phase runs (prepare or war).
    pub open spec fn spec_is_on(self) -> bool {
        self.prepare || self.start
    }

    /// Whether a phase runs (prepare or war).
    pub fn is_on(&self) -> (r: bool)
        ensures
            r == self.spec_is_on(),
    {
        self.prepare || self.start
    }
}

// ── Classes ──────────────────────────────────────────────────────────

/// The event class index of a class code: codes 101-106 are warriors,
/// 107-108 rogues, 109-110 mages, 111-112 priests, 113-115 kurians, and
/// the same for 201-215.
pub open spec fn class_index_of(class_code: u16) -> Option<u8> {
    let n = if class_code > 200 {
        class_code - 100
    } else {
        class_code as int
    };
    if 101 <= n <= 106 {
        Some(0u8)
    } else if 107 <= n <= 108 {
        Some(1u8)
    } else if 109 <= n <= 110 {
        Some(2u8)
    } else if 111 <= n <= 112 {
        Some(3u8)
    } else if 113 <= n <= 115 {
        Some(4u8)
    } else {
        None
    }
}

/// The event class index of a class code.
pub fn get_class_index(class_code: u16) -> (r: Option<u8>)
    ensures
        r == class_index_of(class_code),
{
    let normalized = if class_code > 200 {
        class_code - 100
    } else {
        class_code
    };
    if 101 <= normalized && normalized <= 106 {
        Some(0)
    } else if 107 <= normalized && normalized <= 108 {
        Some(1)
    } else if 109 <= normalized && normalized <= 110 {
        Some(2)
    } else if 111 <= normalized && normalized <= 112 {
        Some(3)
    } else if 113 <= normalized && normalized <= 115 {
        Some(4)
    } else {
        None
    }
}

/// The event classes follow the class codes without gaps: a code whose
/// number within its nation (the code less 100 for El Morad codes) lies in
/// 101 to 115 has an event class, counting the group starts 107, 109, 111
/// and 113 that it reached (so 101-106 are 0, 107-108 are 1, 109-110 are 2,
/// 111-112 are 3 and 113-115 are 4); any other code has none. A Karus code
/// and the El Morad code 100 above it have the same event class.
pub proof fn lemma_class_index_ranges(class_code: u16)
    ensures
        ({
            let n: int = if class_code > 200 {
                class_code - 100
            } else {
                class_code as int
            };
            &&& (101 <= n <= 115) ==> class_index_of(class_code) == Some(
                (reached_start(n, 107) + reached_start(n, 109) + reached_start(n, 111) + reached_start(n, 113)) as u8,
            )
            &&& !(101 <= n <= 115) ==> class_index_of(class_code) is None
            &&& (101 <= class_code <= 115) ==> class_index_of((class_code + 100) as u16) == class_index_of(class_code)
        }),
{
}

/// 1 when `n` has reached the group start `start`, else 0.
pub open spec fn reached_start(n: int, start: int) -> int {
    if n >= start {
        1
    } else {
        0
    }
}

/// Mastered class type of each event class index.
pub open spec fn master_class_type(class_index: u8) -> int {
    if class_index == 0 {
        6
    } else if class_index == 1 {
        8
    } else if class_index == 2 {
        10
    } else if class_index == 3 {
        12
    } else {
        15
    }
}

/// The class an event class index gives: the mastered class of the
/// nation (200s for El Morad, nation 2; 100s otherwise), one tier lower
/// when the setting's level is below 60.
pub open spec fn event_class(nation: u8, class_index: u8, beginner_level: u8) -> Option<u16> {
    if class_index > 4 {
        None
    } else {
        let base: int = (if nation == 2 {
            200int
        } else {
            100int
        }) + master_class_type(class_index);
        Some(
            (if beginner_level < 60 {
                base - 1
            } else {
                base
            }) as u16,
        )
    }
}

/// The event classes 0 to 4 (warrior, rogue, mage, priest, kurian) give a
/// class of that job group on the player's side (El Morad for nation 2,
/// Karus otherwise), mastered from level 60 and novice below, whose event
/// class is the one chosen; and a race of that side that can play it.
/// Any other index gives neither.
pub proof fn lemma_event_identity_fits(nation: u8, class_index: u8, beginner_level: u8)
    ensures
        class_index > 4 ==> event_class(nation, class_index, beginner_level) is None && event_race(
            nation,
            class_index,
        ) is None,
        class_index <= 4 ==> ({
            let c = event_class(nation, class_index, beginner_level)->0;
            let r = event_race(nation, class_index)->0;
            &&& event_class(nation, class_index, beginner_level) is Some
            &&& event_race(nation, class_index) is Some
            &&& job_group(c) == class_index + 1
            &&& class_tier(c) == if beginner_level >= 60 {
                2int
            } else {
                1int
            }
            &&& c / 100 == if nation == 2 {
                2int
            } else {
                1int
            }
            &&& class_index_of(c) == Some(class_index)
            &&& race_plays(r, class_index + 1)
            &&& nation == 2 ==> is_elmorad_race(r)
            &&& nation != 2 ==> is_karus_race(r)
        }),
{
}

/// The class an event class index gives.
pub fn get_new_class(nation: u8, class_index: u8, beginner_level: u8) -> (r: Option<u16>)
    ensures
        r == event_class(nation, class_index, beginner_level),
{
    let base_class: u16 = if nation == 2 {
        match class_index {
            0 => 206,
            1 => 208,
            2 => 210,
            3 => 212,
            4 => 215,
            _ => return None,
        }
    } else {
        match class_index {
            0 => 106,
            1 => 108,
            2 => 110,
            3 => 112,
            4 => 115,
            _ => return None,
        }
    };
    if beginner_level < 60 {
        Some(base_class - 1)
    } else {
        Some(base_class)
    }
}

/// The race an event class index gives.
pub open spec fn event_race(nation: u8, class_index: u8) -> Option<u8> {
    if class_index > 4 {
        None
    } else if nation == 2 {
        Some(
            if class_index <= 1 {
                12u8
            } else if class_index <= 3 {
                13u8
            } else {
                14u8
            },
        )
    } else {
        Some(
            if class_index == 0 {
                1u8
            } else if class_index == 1 {
                2u8
            } else if class_index <= 3 {
                4u8
            } else {
                6u8
            },
        )
    }
}

/// The race an event class index gives.
pub fn get_new_race(nation: u8, class_index: u8) -> (r: Option<u8>)
    ensures
        r == event_race(nation, class_index),
{
    if nation == 2 {
        match class_index {
            0 => Some(12),
            1 => Some(12),
            2 => Some(13),
            3 => Some(13),
            4 => Some(14),
            _ => None,
        }
    } else {
        match class_index {
            0 => Some(1),
            1 => Some(2),
            2 => Some(4),
            3 => Some(4),
            4 => Some(6),
            _ => None,
        }
    }
}

/// Whether `zone_id` is the event zone.
pub fn is_cinderella_zone(zone_id: u16, event_zone_id: u16) -> (r: bool)
    ensures
        r == (zone_id == event_zone_id),
{
    zone_id == event_zone_id
}

// ── Requests ─────────────────────────────────────────────────────────

/// What a class selection request leads to.
#[derive(Debug, Clone, Copy, PartialEq, Eq, Structural)]
pub enum CindSelectAction {
    /// Nothing happens: the class index is out of range, no phase runs, or
    /// a participant is outside the event zone.
    Ignore,
    /// Refused with an error code; `remaining` is the cooldown left for
    /// `TIME_WAIT`, 0 otherwise.
    Refuse { code: u8, remaining: u32 },
    /// A participant switches to the selected class.
    SwitchClass,
    /// A newcomer signs up with the selected class.
    Join,
}

/// What a class selection request leads to, for the event `event`, the
/// player's state `player` (if it has one) and the current unix time.
pub open spec fn select_action(
    event: CindirellaEventState,
    player: Option<CindirellaPlayerState>,
    in_event_zone: bool,
    selected_class: u8,
    now: u64,
) -> CindSelectAction {
    if selected_class > 4 || !event.spec_is_on() {
        CindSelectAction::Ignore
    } else if player is Some && player->0.event_user {
        let ps = player->0;
        if !in_event_zone {
            CindSelectAction::Ignore
        } else if ps.class_change_cooldown > now {
            CindSelectAction::Refuse {
                code: sub_opcode::TIME_WAIT,
                remaining: (ps.class_change_cooldown - now) as u32,
            }
        } else if ps.selected_class == selected_class {
            CindSelectAction::Refuse { code: sub_opcode::ALREADY_CLASS, remaining: 0 }
        } else {
            CindSelectAction::SwitchClass
        }
    } else {
        CindSelectAction::Join
    }
}

/// Decide a class selection request.
pub fn cinderella_select_action(
    event: &CindirellaEventState,
    player: &Option<CindirellaPlayerState>,
    in_event_zone: bool,
    selected_class: u8,
    now: u64,
) -> (r: CindSelectAction)
    ensures
        r == select_action(*event, *player, in_event_zone, selected_class, now),
{
    if selected_class > 4 || !event.is_on() {
        return CindSelectAction::Ignore;
    }
    match player {
        Some(ps) => {
            if ps.event_user {
                if !in_event_zone {
                    return CindSelectAction::Ignore;
                }
                if ps.class_change_cooldown > now {
                    let remaining = (ps.class_change_cooldown - now) as u32;
                    return CindSelectAction::Refuse { code: sub_opcode::TIME_WAIT, remaining };
                }
                if ps.selected_class == selected_class {
                    return CindSelectAction::Refuse { code: sub_opcode::ALREADY_CLASS, remaining: 0 };
                }
                CindSelectAction::SwitchClass
            } else {
                CindSelectAction::Join
            }
        },
        None => CindSelectAction::Join,
    }
}

impl CindirellaPlayerState {
    /// Switch to `selected_class`; the class cooldown restarts at `now`.
    pub fn switch_class(&mut self, selected_class: u8, now: u64)
        requires
            now + CLASS_CHANGE_COOLDOWN_SECS <= u64::MAX,
        ensures
            *final(self) == (CindirellaPlayerState {
                selected_class,
                class_change_cooldown: (now + CLASS_CHANGE_COOLDOWN_SECS) as u64,
                ..*old(self)
            }),
    {
        self.selected_class = selected_class;
        self.class_change_cooldown = now + CLASS_CHANGE_COOLDOWN_SECS;
    }

    /// Count a death.
    pub fn record_death(&mut self)
        requires
            old(self).dead_count < u16::MAX,
        ensures
            *final(self) == (CindirellaPlayerState {
                dead_count: (old(self).dead_count + 1) as u16,
                ..*old(self)
            }),
    {
        self.dead_count = self.dead_count + 1;
    }

    /// Count a kill.
    pub fn record_kill(&mut self)
        requires
            old(self).kill_count < u16::MAX,
        ensures
            *final(self) == (CindirellaPlayerState {
                kill_count: (old(self).kill_count + 1) as u16,
                ..*old(self)
            }),
    {
        self.kill_count = self.kill_count + 1;
    }

    /// Add a reward: experience and gold on top of what the event gave so
    /// far, each capped at its type's maximum.
    pub fn grant_reward(&mut self, exp: u64, noah: u32)
        ensures
            *final(self) == (CindirellaPlayerState {
                gained_exp: if old(self).gained_exp + exp > u64::MAX {
                    u64::MAX
                } else {
                    (old(self).gained_exp + exp) as u64
                },
                gained_noah: if old(self).gained_noah + noah > u32::MAX {
                    u32::MAX
                } else {
                    (old(self).gained_noah + noah) as u32
                },
                ..*old(self)
            }),
    {
        self.gained_exp = self.gained_exp.saturating_add(exp);
        self.gained_noah = self.gained_noah.saturating_add(noah);
    }
}

/// The parts of a character that the event replaces and gives back.
#[derive(Debug, Clone, Copy, PartialEq, Eq)]
pub struct CindCharacter {
    pub class: u16,
    pub race: u8,
    pub nation: u8,
    pub level: u8,
    pub exp: u64,
    pub gold: u32,
    /// [STR, STA, DEX, INT, CHA].
    pub stats: [u8; 5],
    pub free_points: u16,
}

/// A sign-up: the player's new event state and the preset class and race
/// it plays; `signed_up_character` gives the character it then plays.
#[derive(Debug, Clone)]
pub struct CindJoin {
    pub state: CindirellaPlayerState,
    pub new_class: u16,
    pub new_race: u8,
}

/// `ps` is the state of a player who just signed up with
/// `selected_class` at unix time `now`, keeping `character` and
/// `inventory`: both cooldowns start, nothing is won or counted yet.
pub open spec fn signed_up(
    ps: CindirellaPlayerState,
    character: CindCharacter,
    inventory: Seq<ItemSlot>,
    selected_class: u8,
    now: u64,
) -> bool {
    &&& ps.event_user
    &&& !ps.first_selected
    &&& ps.original_class == character.class
    &&& ps.original_race == character.race
    &&& ps.original_nation == character.nation
    &&& ps.original_level == character.level
    &&& ps.original_exp == character.exp
    &&& ps.original_gold == character.gold
    &&& ps.original_stats == character.stats
    &&& ps.original_stat_points == character.free_points
    &&& ps.original_inventory@ == inventory
    &&& ps.event_nation == character.nation
    &&& ps.selected_class == selected_class
    &&& ps.kill_count == 0
    &&& ps.dead_count == 0
    &&& ps.gained_exp == 0
    &&& ps.gained_noah == 0
    &&& ps.class_change_cooldown == now + CLASS_CHANGE_COOLDOWN_SECS
    &&& ps.nation_change_cooldown == now + NATION_CHANGE_COOLDOWN_SECS
}

/// Sign a player up with `selected_class` (0-4): its character and
/// `inventory` are kept in the new state, both cooldowns start at `now`,
/// and its preset class and race follow its nation and the setting's
/// `beginner_level`. `None` for a class index outside 0-4.
pub fn cinderella_sign(
    character: &CindCharacter,
    inventory: Vec<ItemSlot>,
    selected_class: u8,
    beginner_level: u8,
    now: u64,
) -> (r: Option<CindJoin>)
    requires
        now + NATION_CHANGE_COOLDOWN_SECS <= u64::MAX,
    ensures
        selected_class > 4 <==> r is None,
        r matches Some(j) ==> {
            &&& j.new_class == event_class(character.nation, selected_class, beginner_level)->0
            &&& j.new_race == event_race(character.nation, selected_class)->0
            &&& signed_up(j.state, *character, inventory@, selected_class, now)
        },
{
    let new_class = match get_new_class(character.nation, selected_class, beginner_level) {
        Some(c) => c,
        None => return None,
    };
    let new_race = match get_new_race(character.nation, selected_class) {
        Some(r) => r,
        None => return None,
    };
    let state = CindirellaPlayerState {
        event_user: true,
        first_selected: false,
        original_class: character.class,
        original_race: character.race,
        original_nation: character.nation,
        original_level: character.level,
        original_exp: character.exp,
        original_gold: character.gold,
        original_stats: character.stats,
        original_stat_points: character.free_points,
        original_inventory: inventory,
        event_nation: character.nation,
        selected_class,
        kill_count: 0,
        dead_count: 0,
        gained_exp: 0,
        gained_noah: 0,
        class_change_cooldown: now + CLASS_CHANGE_COOLDOWN_SECS,
        nation_change_cooldown: now + NATION_CHANGE_COOLDOWN_SECS,
    };
    Some(CindJoin { state, new_class, new_race })
}

/// The stat preset of an event class: the five stats, the free stat
/// points and the free skill points it gives.
#[derive(Debug, Clone, Copy, PartialEq, Eq)]
pub struct CindStatPreset {
    /// [STR, STA, DEX, INT, CHA].
    pub stats: [u8; 5],
    pub free_points: u16,
    pub skill_free_points: u8,
}

/// `c` with the stats and free stat points of `preset`, when there is one.
pub open spec fn preset_applied(c: CindCharacter, preset: Option<CindStatPreset>) -> CindCharacter {
    match preset {
        Some(p) => CindCharacter { stats: p.stats, free_points: p.free_points, ..c },
        None => c,
    }
}

/// The character a player plays after signing up: the event class and
/// race, the setting's beginner level, no experience and no gold, and the
/// class's stat preset when there is one; the nation stays.
pub open spec fn signed_up_char(
    c: CindCharacter,
    new_class: u16,
    new_race: u8,
    beginner_level: u8,
    preset: Option<CindStatPreset>,
) -> CindCharacter {
    preset_applied(
        CindCharacter { class: new_class, race: new_race, level: beginner_level, exp: 0, gold: 0, ..c },
        preset,
    )
}

/// Applies a stat preset to a character.
pub fn apply_stat_preset(c: &CindCharacter, preset: Option<&CindStatPreset>) -> (r: CindCharacter)
    ensures
        r == preset_applied(*c, match preset {
            Some(p) => Some(*p),
            None => None,
        }),
{
    match preset {
        Some(p) => CindCharacter { stats: p.stats, free_points: p.free_points, ..*c },
        None => *c,
    }
}

/// The character after signing up (see `signed_up_char`); `new_class` and
/// `new_race` are those that `cinderella_sign` returns.
pub fn signed_up_character(
    c: &CindCharacter,
    new_class: u16,
    new_race: u8,
    beginner_level: u8,
    preset: Option<&CindStatPreset>,
) -> (r: CindCharacter)
    ensures
        r == signed_up_char(*c, new_class, new_race, beginner_level, match preset {
            Some(p) => Some(*p),
            None => None,
        }),
{
    let base = CindCharacter { class: new_class, race: new_race, level: beginner_level, exp: 0, gold: 0, ..*c };
    apply_stat_preset(&base, preset)
}

/// Seconds left in the running phase: until the end of the prepare phase
/// while it runs, else until the end of the war (0 once passed; the
/// count is kept to its low 32 bits).
pub fn event_remaining_secs(event: &CindirellaEventState, now: u64) -> (r: u32)
    ensures
        r == (if event.prepare {
            if event.prepare_time > now {
                (event.prepare_time - now) as u64
            } else {
                0u64
            }
        } else {
            if event.finish_time > now {
                (event.finish_time - now) as u64
            } else {
                0u64
            }
        }) as u32,
{
    let left = if event.prepare {
        event.prepare_time.saturating_sub(now)
    } else {
        event.finish_time.saturating_sub(now)
    };
    left as u32
}

/// What a nation change request leads to.
#[derive(Debug, Clone, Copy, PartialEq, Eq, Structural)]
pub enum CindNationAction {
    /// Nothing happens: not a nation (1 or 2), not a participant, outside
    /// the event zone, or in a party.
    Ignore,
    /// Refused with an error code; `remaining` is the cooldown left for
    /// `TIME_WAIT`, 0 otherwise.
    Refuse { code: u8, remaining: u32 },
    /// The participant now plays for the selected nation.
    Changed,
}

/// What a nation change request leads to for a player with state
/// `player` (if any) at unix time `now`.
pub open spec fn nation_action(
    player: Option<CindirellaPlayerState>,
    in_event_zone: bool,
    in_party: bool,
    selected_nation: u8,
    now: u64,
) -> CindNationAction {
    if selected_nation != 1 && selected_nation != 2 {
        CindNationAction::Ignore
    } else if !(player is Some && player->0.event_user) || !in_event_zone || in_party {
        CindNationAction::Ignore
    } else if player->0.nation_change_cooldown > now {
        CindNationAction::Refuse {
            code: sub_opcode::TIME_WAIT,
            remaining: (player->0.nation_change_cooldown - now) as u32,
        }
    } else if player->0.event_nation == selected_nation {
        CindNationAction::Refuse { code: sub_opcode::ALREADY_NATION, remaining: 0 }
    } else {
        CindNationAction::Changed
    }
}

/// Decide a nation change request of a player with state `player` (if
/// any); on `Changed` the state takes the new nation and the nation
/// cooldown restarts at `now`, else it is left as it was.
pub fn cinderella_nation_change(
    player: &mut Option<CindirellaPlayerState>,
    in_event_zone: bool,
    in_party: bool,
    selected_nation: u8,
    now: u64,
) -> (r: CindNationAction)
    requires
        now + NATION_CHANGE_COOLDOWN_SECS <= u64::MAX,
    ensures
        r == nation_action(*old(player), in_event_zone, in_party, selected_nation, now),
        r == CindNationAction::Changed ==> *final(player) == Some(
            CindirellaPlayerState {
                event_nation: selected_nation,
                nation_change_cooldown: (now + NATION_CHANGE_COOLDOWN_SECS) as u64,
                ..(*old(player))->0
            },
        ),
        r != CindNationAction::Changed ==> *final(player) == *old(player),
{
    if selected_nation != 1 && selected_nation != 2 {
        return CindNationAction::Ignore;
    }
    let ps = match player.take() {
        Some(ps) => ps,
        None => return CindNationAction::Ignore,
    };
    if !ps.event_user || !in_event_zone || in_party {
        *player = Some(ps);
        return CindNationAction::Ignore;
    }
    if ps.nation_change_cooldown > now {
        let remaining = (ps.nation_change_cooldown - now) as u32;
        *player = Some(ps);
        return CindNationAction::Refuse { code: sub_opcode::TIME_WAIT, remaining };
    }
    if ps.event_nation == selected_nation {
        *player = Some(ps);
        return CindNationAction::Refuse { code: sub_opcode::ALREADY_NATION, remaining: 0 };
    }
    let mut ps = ps;
    ps.event_nation = selected_nation;
    ps.nation_change_cooldown = now + NATION_CHANGE_COOLDOWN_SECS;
    *player = Some(ps);
    CindNationAction::Changed
}

/// A preset item of the active setting and class, for one inventory slot.
#[derive(Debug, Clone, Copy, PartialEq, Eq, Structural)]
pub struct CindPresetItem {
    pub slot_id: usize,
    pub item_id: u32,
    pub durability: i16,
    pub count: u16,
    pub flag: u8,
}

/// The inventory slot a preset item fills.
pub open spec fn preset_item_slot(item: CindPresetItem) -> ItemSlot {
    ItemSlot {
        item_id: item.item_id,
        durability: item.durability,
        count: item.count,
        flag: item.flag,
        original_flag: 0,
        serial_num: 0,
        expire_time: 0,
    }
}

/// Slot `i` after the presets `items` were put in an emptied inventory:
/// the last preset for slot `i`, or an empty slot.
pub open spec fn preset_slot(items: Seq<CindPresetItem>, i: int) -> ItemSlot
    decreases items.len(),
{
    if items.len() == 0 {
        spec_empty_slot()
    } else if items.last().slot_id == i {
        preset_item_slot(items.last())
    } else {
        preset_slot(items.drop_last(), i)
    }
}

/// Replace the inventory with the presets: every slot is emptied, then
/// each preset whose slot exists fills it (a later preset for the same
/// slot wins). The inventory keeps its size.
pub fn apply_preset_items(inventory: &mut Vec<ItemSlot>, items: &Vec<CindPresetItem>)
    ensures
        final(inventory)@.len() == old(inventory)@.len(),
        forall|i: int|
            0 <= i < final(inventory)@.len() ==> #[trigger] final(inventory)@[i] == preset_slot(
                items@,
                i,
            ),
{
    let mut i: usize = 0;
    while i < inventory.len()
        invariant
            inventory@.len() == old(inventory)@.len(),
            i <= inventory@.len(),
            forall|j: int| 0 <= j < i ==> #[trigger] inventory@[j] == spec_empty_slot(),
        decreases inventory@.len() - i,
    {
        inventory.set(i, ItemSlot::empty());
        i = i + 1;
    }
    let mut k: usize = 0;
    while k < items.len()
        invariant
            inventory@.len() == old(inventory)@.len(),
            k <= items@.len(),
            forall|j: int|
                0 <= j < inventory@.len() ==> #[trigger] inventory@[j] == preset_slot(
                    items@.take(k as int),
                    j,
                ),
        decreases items@.len() - k,
    {
        let item = items[k];
        proof {
            assert(items@.take(k + 1).drop_last() =~= items@.take(k as int));
        }
        if item.slot_id < inventory.len() {
            inventory.set(
                item.slot_id,
                ItemSlot {
                    item_id: item.item_id,
                    durability: item.durability,
                    count: item.count,
                    flag: item.flag,
                    original_flag: 0,
                    serial_num: 0,
                    expire_time: 0,
                },
            );
        }
        proof {
            assert forall|j: int| 0 <= j < inventory@.len() implies #[trigger] inventory@[j]
                == preset_slot(items@.take(k + 1), j) by {
                assert(items@.take(k + 1).last() == item);
            }
        }
        k = k + 1;
    }
    proof {
        assert(items@.take(items@.len() as int) =~= items@);
    }
}

// ── Leaving ──────────────────────────────────────────────────────────

/// The character a participant gets back: the original class, race,
/// nation, level, stats and free points, with the experience and gold won
/// in the event on top (each capped at its maximum).
pub open spec fn restored_character(ps: CindirellaPlayerState) -> CindCharacter {
    CindCharacter {
        class: ps.original_class,
        race: ps.original_race,
        nation: ps.original_nation,
        level: ps.original_level,
        exp: if ps.original_exp + ps.gained_exp > u64::MAX {
            u64::MAX
        } else {
            (ps.original_exp + ps.gained_exp) as u64
        },
        gold: if ps.original_gold + ps.gained_noah > u32::MAX {
            u32::MAX
        } else {
            (ps.original_gold + ps.gained_noah) as u32
        },
        stats: ps.original_stats,
        free_points: ps.original_stat_points,
    }
}

/// Give a participant its character and original inventory back.
/// `None` for a player that does not take part.
pub fn cinderella_logout(ps: CindirellaPlayerState) -> (r: Option<(CindCharacter, Vec<ItemSlot>)>)
    ensures
        !ps.event_user <==> r is None,
        r matches Some((c, inv)) ==> c == restored_character(ps) && inv@ == ps.original_inventory@,
{
    if !ps.event_user {
        return None;
    }
    let c = CindCharacter {
        class: ps.original_class,
        race: ps.original_race,
        nation: ps.original_nation,
        level: ps.original_level,
        exp: ps.original_exp.saturating_add(ps.gained_exp),
        gold: ps.original_gold.saturating_add(ps.gained_noah),
        stats: ps.original_stats,
        free_points: ps.original_stat_points,
    };
    Some((c, ps.original_inventory))
}

// ── Kills ────────────────────────────────────────────────────────────

/// The nation kill counters after a kill by a player of `killer_nation`:
/// El Morad (2) or Karus (any other), each capped at 65535.
pub open spec fn after_nation_kill(event: CindirellaEventState, killer_nation: u8) -> CindirellaEventState {
    if killer_nation == 2 {
        CindirellaEventState {
            elmorad_kills: if event.elmorad_kills == u16::MAX {
                u16::MAX
            } else {
                (event.elmorad_kills + 1) as u16
            },
            ..event
        }
    } else {
        CindirellaEventState {
            karus_kills: if event.karus_kills == u16::MAX {
                u16::MAX
            } else {
                (event.karus_kills + 1) as u16
            },
            ..event
        }
    }
}

/// Count a kill for the nation of the killer.
pub fn record_nation_kill(event: &mut CindirellaEventState, killer_nation: u8)
    ensures
        *final(event) == after_nation_kill(*old(event), killer_nation),
{
    if killer_nation == 2 {
        event.elmorad_kills = event.elmorad_kills.saturating_add(1);
    } else {
        event.karus_kills = event.karus_kills.saturating_add(1);
    }
}

/// A PvP kill in the event zone: the victim counts a death, the killer a
/// kill, and the killer's nation a kill.
pub fn cinderella_update_kda(
    event: &mut CindirellaEventState,
    killer: &mut CindirellaPlayerState,
    victim: &mut CindirellaPlayerState,
    killer_nation: u8,
)
    requires
        old(killer).kill_count < u16::MAX,
        old(victim).dead_count < u16::MAX,
    ensures
        final(victim).dead_count == old(victim).dead_count + 1,
        final(victim).kill_count == old(victim).kill_count,
        final(killer).kill_count == old(killer).kill_count + 1,
        final(killer).dead_count == old(killer).dead_count,
        *final(event) == after_nation_kill(*old(event), killer_nation),
{
    victim.record_death();
    killer.record_kill();
    record_nation_kill(event, killer_nation);
}

// ── Timer ────────────────────────────────────────────────────────────

/// What a timer tick leads to.
#[derive(Debug, Clone, Copy, PartialEq, Eq, Structural)]
pub enum CindTickAction {
    /// Nothing to do.
    Idle,
    /// Announce the minutes left before the war (`war == false`) or before
    /// its end (`war == true`).
    Announce { minutes: u64, war: bool },
    /// The war phase started for `play_time` seconds.
    WarStarted { play_time: u32 },
    /// The war is over and the event is idle again: the participants are
    /// to be ranked and rewarded (`cinderella_rank_awards`) and given back
    /// their characters.
    Finish,
}

/// Whether `remaining` seconds (more than 0) is a whole number of minutes
/// at which the countdown is announced.
pub open spec fn announced(remaining: u64) -> bool {
    let m = remaining / 60;
    &&& remaining % 60 == 0
    &&& (m == 30 || m == 20 || m == 10 || m == 5 || m == 4 || m == 3 || m == 2 || m == 1)
}

/// The countdown step for `remaining` seconds left in a phase.
pub open spec fn countdown(remaining: u64, war: bool) -> CindTickAction {
    if announced(remaining) {
        CindTickAction::Announce { minutes: remaining / 60, war }
    } else {
        CindTickAction::Idle
    }
}

/// Whether a countdown with `remaining` seconds is announced.
fn is_announced(remaining: u64) -> (r: bool)
    ensures
        r == announced(remaining),
{
    let m = remaining / 60;
    remaining % 60 == 0 && (m == 30 || m == 20 || m == 10 || m == 5 || m == 4 || m == 3 || m == 2
        || m == 1)
}

/// One second of the event at unix time `now`. `playtime_minutes` is the
/// war length of the active setting, `None` when that setting is missing.
///
/// While the prepare phase has time left the countdown is announced;
/// when it runs out the war starts (if the setting exists). While the war
/// has time left its countdown is announced; when it runs out the event
/// finishes and returns to idle.
pub fn cinderella_timer_tick(
    event: &mut CindirellaEventState,
    now: u64,
    playtime_minutes: Option<u32>,
) -> (r: CindTickAction)
    requires
        playtime_minutes matches Some(p) ==> p * 60 <= u32::MAX && now + p * 60 <= u64::MAX,
    ensures
        ({
            let e = *old(event);
            let prep_left = if e.prepare_time > now {
                (e.prepare_time - now) as u64
            } else {
                0u64
            };
            let war_left = if e.finish_time > now {
                (e.finish_time - now) as u64
            } else {
                0u64
            };
            if !e.spec_is_on() {
                r == CindTickAction::Idle && *final(event) == e
            } else if e.prepare {
                if prep_left > 0 {
                    r == countdown(prep_left, false) && *final(event) == e
                } else if playtime_minutes is None {
                    r == CindTickAction::Idle && *final(event) == e
                } else {
                    let p = playtime_minutes->0;
                    &&& r == CindTickAction::WarStarted { play_time: (p * 60) as u32 }
                    &&& *final(event) == CindirellaEventState {
                        prepare: false,
                        start: true,
                        finish_time: (now + p * 60) as u64,
                        ..e
                    }
                }
            } else if war_left > 0 {
                &&& *final(event) == e
                &&& r == countdown(war_left, true)
            } else {
                &&& *final(event) == idle_event()
                &&& r == CindTickAction::Finish
            }
        }),
{
    if !event.is_on() {
        return CindTickAction::Idle;
    }
    if event.prepare {
        let remaining = event.prepare_time.saturating_sub(now);
        if remaining > 0 {
            if is_announced(remaining) {
                return CindTickAction::Announce { minutes: remaining / 60, war: false };
            }
            return CindTickAction::Idle;
        }
        match playtime_minutes {
            None => CindTickAction::Idle,
            Some(p) => {
                event.prepare = false;
                event.start = true;
                event.finish_time = now + (p as u64) * 60;
                CindTickAction::WarStarted { play_time: p * 60 }
            },
        }
    } else {
        let remaining = event.finish_time.saturating_sub(now);
        if remaining > 0 {
            if is_announced(remaining) {
                return CindTickAction::Announce { minutes: remaining / 60, war: true };
            }
            return CindTickAction::Idle;
        }
        *event = CindirellaEventState::default();
        CindTickAction::Finish
    }
}

// ── Finish ───────────────────────────────────────────────────────────

/// A participant's score when the war ends.
#[derive(Debug, Clone, Copy, PartialEq, Eq, Structural)]
pub struct CindRankEntry {
    /// Session of the participant.
    pub sid: u32,
    pub kills: u16,
    pub deaths: u16,
    pub nation: u8,
}

/// The reward of one rank.
#[derive(Debug, Clone, Copy, PartialEq, Eq, Structural)]
pub struct CindReward {
    pub exp_count: i32,
    pub money_count: i32,
}

/// What one ranked participant receives.
#[derive(Debug, Clone, Copy, PartialEq, Eq, Structural)]
pub struct CindAward {
    pub sid: u32,
    /// Rank within the participant's nation, from 1.
    pub rank: u32,
    pub exp: u64,
    pub noah: u32,
}

/// `a` ranks no lower than `b`: more kills, or as many kills and no more
/// deaths.
pub open spec fn ranks_before(a: CindRankEntry, b: CindRankEntry) -> bool {
    a.kills > b.kills || (a.kills == b.kills && a.deaths <= b.deaths)
}

/// Whether `a` ranks no lower than `b`.
pub fn ranks_no_lower(a: &CindRankEntry, b: &CindRankEntry) -> (r: bool)
    ensures
        r == ranks_before(*a, *b),
{
    a.kills > b.kills || (a.kills == b.kills && a.deaths <= b.deaths)
}

/// The entries are in ranking order.
pub open spec fn rank_sorted(s: Seq<CindRankEntry>) -> bool {
    forall|i: int, j: int| 0 <= i < j < s.len() ==> ranks_before(#[trigger] s[i], #[trigger] s[j])
}

/// Whether an entry plays for El Morad (nation 2); every other nation is
/// ranked with Karus.
pub open spec fn is_elmorad_side(e: CindRankEntry) -> bool {
    e.nation == 2
}

/// How many of the first `k` entries play on the side `elmorad`.
pub open spec fn side_count(s: Seq<CindRankEntry>, k: int, elmorad: bool) -> nat
    decreases k,
{
    if k <= 0 {
        0
    } else {
        side_count(s, k - 1, elmorad) + if is_elmorad_side(s[k - 1]) == elmorad {
            1nat
        } else {
            0nat
        }
    }
}

/// The rank of entry `k` within its side: one more than the entries of the
/// same side before it.
pub open spec fn side_rank(s: Seq<CindRankEntry>, k: int) -> nat {
    side_count(s, k, is_elmorad_side(s[k])) + 1
}

/// What the entry at rank `rank` of its side receives: the reward of that
/// rank (positive amounts only) for the best 200, nothing otherwise.
pub open spec fn award_for(e: CindRankEntry, rank: nat, rewards: Seq<CindReward>) -> CindAward {
    if rank <= REWARDED_RANKS && rank - 1 < rewards.len() {
        let rw = rewards[rank - 1];
        CindAward {
            sid: e.sid,
            rank: rank as u32,
            exp: if rw.exp_count > 0 {
                rw.exp_count as u64
            } else {
                0
            },
            noah: if rw.money_count > 0 {
                rw.money_count as u32
            } else {
                0
            },
        }
    } else {
        CindAward { sid: e.sid, rank: rank as u32, exp: 0, noah: 0 }
    }
}

/// Two entries tie: as many kills and as many deaths.
pub open spec fn same_score(a: CindRankEntry, b: CindRankEntry) -> bool {
    a.kills == b.kills && a.deaths == b.deaths
}

/// `out` is `input` in ranking order where tied entries keep their order:
/// `perm` tells for each position of `out` the position in `input` it came
/// from.
pub open spec fn rank_order_by(out: Seq<CindRankEntry>, input: Seq<CindRankEntry>, perm: Seq<int>) -> bool {
    &&& out.len() == input.len()
    &&& perm.len() == out.len()
    &&& rank_sorted(out)
    &&& forall|p: int| 0 <= p < perm.len() ==> 0 <= #[trigger] perm[p] < input.len()
    &&& forall|p: int| 0 <= p < perm.len() ==> out[p] == input[#[trigger] perm[p]]
    &&& forall|p: int, q: int| 0 <= p < q < perm.len() ==> #[trigger] perm[p] != #[trigger] perm[q]
    &&& forall|p: int, q: int|
        0 <= p < q < out.len() && same_score(#[trigger] out[p], #[trigger] out[q]) ==> perm[p] < perm[q]
}

/// `out` is `input` in ranking order, ties kept in order.
pub open spec fn rank_stably_sorted(out: Seq<CindRankEntry>, input: Seq<CindRankEntry>) -> bool {
    exists|perm: Seq<int>| rank_order_by(out, input, perm)
}

/// Sort the entries by kills (most first), then deaths (fewest first);
/// entries that tie keep their order.
pub fn sort_rankings(entries: Vec<CindRankEntry>) -> (r: Vec<CindRankEntry>)
    ensures
        rank_sorted(r@),
        rank_stably_sorted(r@, entries@),
        r@.to_multiset() == entries@.to_multiset(),
{
    broadcast use vstd::seq_lib::group_to_multiset_ensures;

    let mut sorted: Vec<CindRankEntry> = Vec::new();
    let ghost mut perm: Seq<int> = Seq::empty();
    let mut i: usize = 0;
    while i < entries.len()
        invariant
            i <= entries.len(),
            rank_sorted(sorted@),
            sorted@.to_multiset() == entries@.take(i as int).to_multiset(),
            sorted@.len() == i,
            perm.len() == i,
            forall|p: int| 0 <= p < perm.len() ==> 0 <= #[trigger] perm[p] < i,
            forall|p: int| 0 <= p < perm.len() ==> sorted@[p] == entries@[#[trigger] perm[p]],
            forall|p: int, q: int| 0 <= p < q < perm.len() ==> #[trigger] perm[p] != #[trigger] perm[q],
            forall|p: int, q: int|
                0 <= p < q < sorted@.len() && same_score(#[trigger] sorted@[p], #[trigger] sorted@[q])
                    ==> perm[p] < perm[q],
        decreases entries.len() - i,
    {
        let e = entries[i];
        let mut pos: usize = 0;
        while pos < sorted.len() && ranks_no_lower(&sorted[pos], &e)
            invariant
                pos <= sorted.len(),
                forall|k: int| 0 <= k < pos ==> ranks_before(#[trigger] sorted@[k], e),
            decreases sorted.len() - pos,
        {
            pos = pos + 1;
        }
        proof {
            assert forall|k: int| pos <= k < sorted@.len() implies ranks_before(e, #[trigger] sorted@[k])
                && !same_score(e, sorted@[k]) by {
                assert(!ranks_before(sorted@[pos as int], e));
                if k > pos {
                    assert(ranks_before(sorted@[pos as int], sorted@[k]));
                }
            }
            assert(entries@.take(i + 1) =~= entries@.take(i as int).push(e));
        }
        let ghost old_sorted = sorted@;
        let ghost old_perm = perm;
        sorted.insert(pos, e);
        proof {
            perm = old_perm.insert(pos as int, i as int);
            vstd::seq_lib::to_multiset_insert(old_sorted, pos as int, e);
            vstd::seq_lib::to_multiset_build(entries@.take(i as int), e);
            assert(rank_sorted(sorted@)) by {
                assert forall|a: int, b: int| 0 <= a < b < sorted@.len() implies ranks_before(
                    #[trigger] sorted@[a],
                    #[trigger] sorted@[b],
                ) by {
                    if a < pos && b < pos {
                        assert(sorted@[a] == old_sorted[a] && sorted@[b] == old_sorted[b]);
                    } else if a < pos && b == pos {
                    } else if a < pos {
                        assert(sorted@[a] == old_sorted[a] && sorted@[b] == old_sorted[b - 1]);
                    } else if a == pos {
                        assert(sorted@[b] == old_sorted[b - 1]);
                    } else {
                        assert(sorted@[a] == old_sorted[a - 1] && sorted@[b] == old_sorted[b - 1]);
                    }
                }
            }
            assert forall|p: int| 0 <= p < perm.len() implies sorted@[p] == entries@[#[trigger] perm[p]] by {
                if p < pos {
                    assert(sorted@[p] == old_sorted[p] && perm[p] == old_perm[p]);
                } else if p > pos {
                    assert(sorted@[p] == old_sorted[p - 1] && perm[p] == old_perm[p - 1]);
                }
            }
            assert forall|p: int| 0 <= p < perm.len() implies 0 <= #[trigger] perm[p] < i + 1 by {
                if p < pos {
                    assert(perm[p] == old_perm[p]);
                } else if p > pos {
                    assert(perm[p] == old_perm[p - 1]);
                }
            }
            assert forall|p: int, q: int| 0 <= p < q < perm.len() implies #[trigger] perm[p] != #[trigger] perm[q] by {
                if p < pos && q < pos {
                    assert(perm[p] == old_perm[p] && perm[q] == old_perm[q]);
                } else if p < pos && q == pos {
                    assert(perm[p] == old_perm[p]);
                } else if p < pos {
                    assert(perm[p] == old_perm[p] && perm[q] == old_perm[q - 1]);
                } else if p == pos {
                    assert(perm[q] == old_perm[q - 1]);
                } else {
                    assert(perm[p] == old_perm[p - 1] && perm[q] == old_perm[q - 1]);
                }
            }
            assert forall|p: int, q: int|
                0 <= p < q < sorted@.len() && same_score(#[trigger] sorted@[p], #[trigger] sorted@[q])
                    implies perm[p] < perm[q] by {
                if p < pos && q < pos {
                    assert(sorted@[p] == old_sorted[p] && sorted@[q] == old_sorted[q]);
                    assert(perm[p] == old_perm[p] && perm[q] == old_perm[q]);
                } else if p < pos && q == pos {
                    assert(perm[p] == old_perm[p]);
                } else if p < pos {
                    assert(sorted@[p] == old_sorted[p] && sorted@[q] == old_sorted[q - 1]);
                    assert(!same_score(e, old_sorted[q - 1]));
                } else if p == pos {
                    assert(sorted@[q] == old_sorted[q - 1]);
                    assert(!same_score(e, old_sorted[q - 1]));
                } else {
                    assert(sorted@[p] == old_sorted[p - 1] && sorted@[q] == old_sorted[q - 1]);
                    assert(perm[p] == old_perm[p - 1] && perm[q] == old_perm[q - 1]);
                }
            }
        }
        i = i + 1;
    }
    proof {
        assert(entries@.take(entries@.len() as int) =~= entries@);
        assert(rank_order_by(sorted@, entries@, perm));
    }
    sorted
}

/// The awards of the entries of `s`, in order.
pub open spec fn awards_of(s: Seq<CindRankEntry>, rewards: Seq<CindReward>) -> Seq<CindAward> {
    Seq::new(s.len(), |k: int| award_for(s[k], side_rank(s, k), rewards))
}

/// Give out the awards of the ranked entries `ranked`: each entry's rank
/// within its side and what that rank receives (`rewards[rank - 1]`).
pub fn rank_awards(ranked: &Vec<CindRankEntry>, rewards: &Vec<CindReward>) -> (r: Vec<CindAward>)
    requires
        ranked@.len() <= u32::MAX,
    ensures
        r@ == awards_of(ranked@, rewards@),
{
    let mut awards: Vec<CindAward> = Vec::new();
    let mut elmorad_rank: u32 = 0;
    let mut karus_rank: u32 = 0;
    let mut k: usize = 0;
    while k < ranked.len()
        invariant
            k <= ranked@.len() <= u32::MAX,
            elmorad_rank == side_count(ranked@, k as int, true),
            karus_rank == side_count(ranked@, k as int, false),
            elmorad_rank + karus_rank == k,
            awards@ =~= awards_of(ranked@, rewards@).take(k as int),
        decreases ranked@.len() - k,
    {
        proof {
            lemma_side_counts_split(ranked@, k as int);
        }
        let e = ranked[k];
        let rank: u32 = if e.nation == 2 {
            elmorad_rank = elmorad_rank + 1;
            elmorad_rank
        } else {
            karus_rank = karus_rank + 1;
            karus_rank
        };
        let mut exp: u64 = 0;
        let mut noah: u32 = 0;
        if rank <= REWARDED_RANKS && ((rank - 1) as usize) < rewards.len() {
            let rw = rewards[(rank - 1) as usize];
            if rw.exp_count > 0 {
                exp = rw.exp_count as u64;
            }
            if rw.money_count > 0 {
                noah = rw.money_count as u32;
            }
        }
        awards.push(CindAward { sid: e.sid, rank, exp, noah });
        proof {
            assert(awards_of(ranked@, rewards@).take(k + 1) =~= awards_of(ranked@, rewards@).take(
                k as int,
            ).push(award_for(ranked@[k as int], side_rank(ranked@, k as int), rewards@)));
        }
        k = k + 1;
    }
    proof {
        assert(awards_of(ranked@, rewards@).take(ranked@.len() as int) =~= awards_of(ranked@, rewards@));
    }
    awards
}

/// Every entry counts on exactly one side.
proof fn lemma_side_counts_split(s: Seq<CindRankEntry>, k: int)
    requires
        0 <= k <= s.len(),
    ensures
        side_count(s, k, true) + side_count(s, k, false) == k,
    decreases k,
{
    if k > 0 {
        lemma_side_counts_split(s, k - 1);
    }
}

/// Rank the participants of a finished war (most kills first, then fewest
/// deaths) and give each the award of its rank within its side. Returns
/// the ranking and the awards, in the same order; the participants are
/// then given back their characters with `cinderella_logout`.
pub fn cinderella_rank_awards(
    entries: Vec<CindRankEntry>,
    rewards: &Vec<CindReward>,
) -> (r: (Vec<CindRankEntry>, Vec<CindAward>))
    requires
        entries@.len() <= u32::MAX,
    ensures
        rank_sorted(r.0@),
        rank_stably_sorted(r.0@, entries@),
        r.0@.to_multiset() == entries@.to_multiset(),
        r.1@ == awards_of(r.0@, rewards@),
{
    let ghost input = entries@;
    let ranked = sort_rankings(entries);
    proof {
        vstd::seq_lib::to_multiset_len(ranked@);
        vstd::seq_lib::to_multiset_len(input);
    }
    let awards = rank_awards(&ranked, rewards);
    (ranked, awards)
}

/// End the war: rank and reward the participants (see
/// `cinderella_rank_awards`) and return the event to idle.
pub fn cinderella_finish(
    event: &mut CindirellaEventState,
    entries: Vec<CindRankEntry>,
    rewards: &Vec<CindReward>,
) -> (r: (Vec<CindRankEntry>, Vec<CindAward>))
    requires
        entries@.len() <= u32::MAX,
    ensures
        rank_sorted(r.0@),
        rank_stably_sorted(r.0@, entries@),
        r.0@.to_multiset() == entries@.to_multiset(),
        r.1@ == awards_of(r.0@, rewards@),
        *final(event) == idle_event(),
{
    let r = cinderella_rank_awards(entries, rewards);
    *event = CindirellaEventState::default();
    r
}

// ── Laws ─────────────────────────────────────────────────────────────

/// A player who signs up and leaves before winning anything gets back
/// exactly the character and inventory it had.
pub proof fn lemma_sign_then_leave_restores(
    ps: CindirellaPlayerState,
    character: CindCharacter,
    inventory: Seq<ItemSlot>,
    selected_class: u8,
    now: u64,
)
    requires
        signed_up(ps, character, inventory, selected_class, now),
    ensures
        restored_character(ps) == character,
        ps.original_inventory@ == inventory,
{
}

/// Playing the event (class and nation changes, kills and deaths) never
/// touches the character a participant gets back; rewards only add the
/// experience and gold won.
pub proof fn lemma_event_play_keeps_original(
    ps: CindirellaPlayerState,
    selected_class: u8,
    nation: u8,
    cooldown: u64,
    kills: u16,
    deaths: u16,
)
    ensures
        restored_character(
            CindirellaPlayerState { selected_class, class_change_cooldown: cooldown, ..ps },
        ) == restored_character(ps),
        restored_character(
            CindirellaPlayerState { event_nation: nation, nation_change_cooldown: cooldown, ..ps },
        ) == restored_character(ps),
        restored_character(CindirellaPlayerState { kill_count: kills, dead_count: deaths, ..ps })
            == restored_character(ps),
{
}

/// Within one side, ranks count up from 1 along the ranking: the entry at
/// position `k` ranks one below the last entry of its side before it.
pub proof fn lemma_side_ranks_count_up(s: Seq<CindRankEntry>, j: int, k: int)
    requires
        0 <= j < k < s.len(),
        is_elmorad_side(s[j]) == is_elmorad_side(s[k]),
        forall|m: int| j < m < k ==> is_elmorad_side(#[trigger] s[m]) != is_elmorad_side(s[k]),
    ensures
        side_rank(s, k) == side_rank(s, j) + 1,
    decreases k - j,
{
    lemma_side_count_skips(s, j + 1, k, is_elmorad_side(s[k]));
}

/// Entries of the other side do not move a side's count.
proof fn lemma_side_count_skips(s: Seq<CindRankEntry>, a: int, b: int, side: bool)
    requires
        0 <= a <= b <= s.len(),
        forall|m: int| a <= m < b ==> is_elmorad_side(#[trigger] s[m]) != side,
    ensures
        side_count(s, b, side) == side_count(s, a, side),
    decreases b - a,
{
    if b > a {
        lemma_side_count_skips(s, a, b - 1, side);
    }
}

// ── Packets ──────────────────────────────────────────────────────────

/// The Cinderella War opcode of client requests.
pub const WIZ_CINDERELLA: u8 = 0xE0;

/// The opcode of extension-hook packets, which carry the event's replies.
pub const EXT_HOOK_S2C: u8 = 0xE9;

/// The extension-hook sub-opcode of the Cinderella War.
pub const EXT_HOOK_CINDIRELLA: u8 = 0xE0;

/// A reply of the event: the extension-hook opcode and the event's
/// sub-opcode, followed by `body`.
pub open spec fn cind_reply(r: Packet, body: Seq<u8>) -> bool {
    r.opcode == EXT_HOOK_S2C && r.data@ == seq![EXT_HOOK_CINDIRELLA] + body
}

fn build_cind_base() -> (r: Packet)
    ensures
        cind_reply(r, Seq::empty()),
{
    let mut pkt = Packet::new(EXT_HOOK_S2C);
    pkt.write_u8(EXT_HOOK_CINDIRELLA);
    assert(pkt.data@ =~= seq![EXT_HOOK_CINDIRELLA] + Seq::<u8>::empty());
    pkt
}

/// The reply to joining: the phase (1 while preparing), the class, the
/// seconds left, the player's kills and deaths and the nations' kills
/// (Karus first).
pub fn build_join_event(
    is_prepare: bool,
    class_index: u8,
    remaining_time: u32,
    kill_count: u16,
    dead_count: u16,
    karus_kills: u16,
    elmorad_kills: u16,
) -> (r: Packet)
    ensures
        cind_reply(
            r,
            seq![sub_opcode::JOIN_EVENT, if is_prepare {
                1u8
            } else {
                0u8
            }, class_index] + le4(remaining_time as int) + le2(kill_count as int) + le2(
                dead_count as int,
            ) + le2(karus_kills as int) + le2(elmorad_kills as int),
        ),
{
    let mut pkt = build_cind_base();
    pkt.write_u8(sub_opcode::JOIN_EVENT);
    pkt.write_u8(if is_prepare { 1 } else { 0 });
    pkt.write_u8(class_index);
    pkt.write_u32(remaining_time);
    pkt.write_u16(kill_count);
    pkt.write_u16(dead_count);
    pkt.write_u16(karus_kills);
    pkt.write_u16(elmorad_kills);
    assert(pkt.data@ =~= seq![EXT_HOOK_CINDIRELLA] + (seq![sub_opcode::JOIN_EVENT, if is_prepare {
        1u8
    } else {
        0u8
    }, class_index] + le4(remaining_time as int) + le2(kill_count as int) + le2(dead_count as int)
        + le2(karus_kills as int) + le2(elmorad_kills as int)));
    pkt
}

/// The notice that the war phase starts, with the seconds it lasts.
pub fn build_starting(remaining_time: u32) -> (r: Packet)
    ensures
        cind_reply(r, seq![sub_opcode::STARTING] + le4(remaining_time as int)),
{
    let mut pkt = build_cind_base();
    pkt.write_u8(sub_opcode::STARTING);
    pkt.write_u32(remaining_time);
    assert(pkt.data@ =~= seq![EXT_HOOK_CINDIRELLA] + (seq![sub_opcode::STARTING] + le4(remaining_time as int)));
    pkt
}

/// The player's own kills and deaths.
pub fn build_kda_personal(kill_count: u16, dead_count: u16) -> (r: Packet)
    ensures
        cind_reply(r, seq![sub_opcode::UPDATE_KDA, 0u8] + le2(kill_count as int) + le2(dead_count as int)),
{
    let mut pkt = build_cind_base();
    pkt.write_u8(sub_opcode::UPDATE_KDA);
    pkt.write_u8(0);
    pkt.write_u16(kill_count);
    pkt.write_u16(dead_count);
    assert(pkt.data@ =~= seq![EXT_HOOK_CINDIRELLA] + (seq![sub_opcode::UPDATE_KDA, 0u8] + le2(kill_count as int)
        + le2(dead_count as int)));
    pkt
}

/// The nations' kills, El Morad first.
pub fn build_kda_global(elmorad_kills: u16, karus_kills: u16) -> (r: Packet)
    ensures
        cind_reply(r, seq![sub_opcode::UPDATE_KDA, 1u8] + le2(elmorad_kills as int) + le2(karus_kills as int)),
{
    let mut pkt = build_cind_base();
    pkt.write_u8(sub_opcode::UPDATE_KDA);
    pkt.write_u8(1);
    pkt.write_u16(elmorad_kills);
    pkt.write_u16(karus_kills);
    assert(pkt.data@ =~= seq![EXT_HOOK_CINDIRELLA] + (seq![sub_opcode::UPDATE_KDA, 1u8] + le2(elmorad_kills as int)
        + le2(karus_kills as int)));
    pkt
}

/// The notice that the event finished.
pub fn build_finish() -> (r: Packet)
    ensures
        cind_reply(r, seq![sub_opcode::FINISH]),
{
    let mut pkt = build_cind_base();
    pkt.write_u8(sub_opcode::FINISH);
    assert(pkt.data@ =~= seq![EXT_HOOK_CINDIRELLA] + seq![sub_opcode::FINISH]);
    pkt
}

/// The reply to a granted class selection.
pub fn build_select_success(selected_class: u8) -> (r: Packet)
    ensures
        cind_reply(r, seq![sub_opcode::SELECT_CLASS, sub_opcode::SUCCESS, selected_class]),
{
    let mut pkt = build_cind_base();
    pkt.write_u8(sub_opcode::SELECT_CLASS);
    pkt.write_u8(sub_opcode::SUCCESS);
    pkt.write_u8(selected_class);
    assert(pkt.data@ =~= seq![EXT_HOOK_CINDIRELLA] + seq![sub_opcode::SELECT_CLASS, sub_opcode::SUCCESS, selected_class]);
    pkt
}

/// The reply to a granted nation change.
pub fn build_nation_success() -> (r: Packet)
    ensures
        cind_reply(r, seq![sub_opcode::NATION_CHANGE, sub_opcode::SUCCESS]),
{
    let mut pkt = build_cind_base();
    pkt.write_u8(sub_opcode::NATION_CHANGE);
    pkt.write_u8(sub_opcode::SUCCESS);
    assert(pkt.data@ =~= seq![EXT_HOOK_CINDIRELLA] + seq![sub_opcode::NATION_CHANGE, sub_opcode::SUCCESS]);
    pkt
}

/// A refusal of a nation change (`is_nation`) or of a class selection,
/// with the error code; a cooldown refusal also carries the seconds left.
pub fn build_cind_error(is_nation: bool, error_code: u8, remaining_secs: u32) -> (r: Packet)
    ensures
        cind_reply(
            r,
            seq![if is_nation {
                sub_opcode::NATION_CHANGE
            } else {
                sub_opcode::SELECT_CLASS
            }, error_code] + if error_code == sub_opcode::TIME_WAIT {
                le4(remaining_secs as int)
            } else {
                Seq::empty()
            },
        ),
{
    let mut pkt = build_cind_base();
    pkt.write_u8(if is_nation { sub_opcode::NATION_CHANGE } else { sub_opcode::SELECT_CLASS });
    pkt.write_u8(error_code);
    if error_code == sub_opcode::TIME_WAIT {
        pkt.write_u32(remaining_secs);
    }
    assert(pkt.data@ =~= seq![EXT_HOOK_CINDIRELLA] + (seq![if is_nation {
        sub_opcode::NATION_CHANGE
    } else {
        sub_opcode::SELECT_CLASS
    }, error_code] + if error_code == sub_opcode::TIME_WAIT {
        le4(remaining_secs as int)
    } else {
        Seq::empty()
    }));
    pkt
}

} // verus!
