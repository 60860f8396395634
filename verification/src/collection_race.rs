//! Collection Race: a server-wide timed event in which players kill given
//! monsters (up to three kinds, each with a required count) to finish.
//!
//! Depending on the event's repeat mode a finisher is done (mode 0),
//! plays a second round at two and a half times the counts (mode 1), or
//! plays again and again (mode 2). Every finish counts; the event ends
//! when the finisher limit or the time is reached.

use std::string::String;
use std::vec::Vec;
use vstd::prelude::*;

use crate::dice::random_between;
use crate::packet::{Packet, le2, le4, utf8};
use vstd::string::StringSliceAdditionalSpecFns;

pub use crate::world::{ITEM_COUNT, ITEM_EXP, ITEM_GOLD, ITEM_RANDOM};

verus! {

/// Extension sub-opcode of the collection race packets.
pub const EXT_SUB_COLLECTION_RACE: u8 = 0xAF;

/// Sub-opcode: the event starts.
pub const SUB_START: u8 = 0x00;

/// Sub-opcode: the state sent to a player entering the game.
pub const SUB_REFRESH: u8 = 0x01;

/// Sub-opcode: kill progress.
pub const SUB_KILL_UPDATE: u8 = 0x02;

/// Sub-opcode: number of finishers.
pub const SUB_COUNT_UPDATE: u8 = 0x03;

/// Sub-opcode: the event (or the player's part) is over.
pub const SUB_END: u8 = 0x04;

/// Sub-opcode: hide the event window.
pub const SUB_HIDE: u8 = 0x05;

/// Monster slots per event.
pub const CR_SLOTS: usize = 3;

/// Reward slots per event.
pub const CR_REWARD_SLOTS: usize = 3;

/// Largest gold or experience reward.
pub const CR_MAX_GOLD_EXP_REWARD: u32 = 9_999_999;

/// Largest count of an item reward.
pub const CR_MAX_ITEM_REWARD: u32 = 9999;

/// A player's progress in the running race.
#[derive(Debug, Clone, Copy, PartialEq, Eq)]
pub struct CrUserList {
    /// Kills of each monster kind.
    pub kill_counts: [u16; 3],
    /// The player is done with this race.
    pub is_finish: bool,
    /// Rounds finished (in repeat mode 1 the counts are 2.5 times higher
    /// from the second round on).
    pub user_status: u8,
}

impl Default for CrUserList {
    fn default() -> (r: Self)
        ensures
            r.kill_counts@ == seq![0u16, 0u16, 0u16],
            !r.is_finish,
            r.user_status == 0,
    {
        CrUserList { kill_counts: [0u16; 3], is_finish: false, user_status: 0 }
    }
}

/// The running race (one per server).
#[derive(Debug, Clone)]
pub struct CollectionRaceEvent {
    pub is_active: bool,
    /// A start was requested and not answered yet.
    pub request_pending: bool,
    /// Unix time at which the race ends.
    pub event_end_time: u32,
    pub min_level: u8,
    pub max_level: u8,
    pub zone_id: u8,
    /// Most finishers.
    pub user_limit: u16,
    pub event_name: String,
    /// Repeat mode: 0 finish once, 1 a second round at 2.5 times, 2 endless.
    pub event_list_status: u8,
    /// Monster template of each slot (0 for unused).
    pub proto_ids: [u16; 3],
    /// Required kills of each slot (0 for unused).
    pub kill_counts_req: [u16; 3],
    pub reward_item_ids: [u32; 3],
    pub reward_item_counts: [u32; 3],
    pub reward_item_times: [u32; 3],
    /// Chance of each reward in percent (0 means always).
    pub reward_item_rates: [u8; 3],
    pub reward_sessions: [u8; 3],
    /// Finishers so far.
    pub total_count: u16,
    /// Multiplier of the finisher count shown to players.
    pub rank_bug: u32,
    /// Progress per character name (upper case), each name once.
    pub user_list: Vec<(String, CrUserList)>,
}

/// A player's progress is consistent: only a finished player has finished
/// a second round.
pub open spec fn user_wf(u: CrUserList) -> bool {
    u.user_status <= 1 || (u.user_status == 2 && u.is_finish)
}

impl CollectionRaceEvent {
    /// Each name appears once in the progress list, and every progress is
    /// consistent.
    pub open spec fn wf(&self) -> bool {
        &&& forall|i: int, j: int|
            0 <= i < j < self.user_list@.len() ==> (#[trigger] self.user_list@[i]).0@
                != (#[trigger] self.user_list@[j]).0@
        &&& forall|i: int| 0 <= i < self.user_list@.len() ==> user_wf(#[trigger] self.user_list@[i].1)
    }

    /// The idle race.
    pub open spec fn is_idle(&self) -> bool {
        &&& !self.is_active
        &&& !self.request_pending
        &&& self.event_end_time == 0
        &&& self.min_level == 1
        &&& self.max_level == 83
        &&& self.zone_id == 0
        &&& self.user_limit == 0
        &&& self.event_name@.len() == 0
        &&& self.event_list_status == 0
        &&& self.proto_ids@ == seq![0u16, 0u16, 0u16]
        &&& self.kill_counts_req@ == seq![0u16, 0u16, 0u16]
        &&& self.reward_item_ids@ == seq![0u32, 0u32, 0u32]
        &&& self.reward_item_counts@ == seq![0u32, 0u32, 0u32]
        &&& self.reward_item_times@ == seq![0u32, 0u32, 0u32]
        &&& self.reward_item_rates@ == seq![0u8, 0u8, 0u8]
        &&& self.reward_sessions@ == seq![0u8, 0u8, 0u8]
        &&& self.total_count == 0
        &&& self.rank_bug == 1
        &&& self.user_list@.len() == 0
    }
}

impl Default for CollectionRaceEvent {
    fn default() -> (r: Self)
        ensures
            r.is_idle(),
            r.wf(),
    {
        let r = CollectionRaceEvent {
            is_active: false,
            request_pending: false,
            event_end_time: 0,
            min_level: 1,
            max_level: 83,
            zone_id: 0,
            user_limit: 0,
            event_name: String::new(),
            event_list_status: 0,
            proto_ids: [0u16; 3],
            kill_counts_req: [0u16; 3],
            reward_item_ids: [0u32; 3],
            reward_item_counts: [0u32; 3],
            reward_item_times: [0u32; 3],
            reward_item_rates: [0u8; 3],
            reward_sessions: [0u8; 3],
            total_count: 0,
            rank_bug: 1,
            user_list: Vec::new(),
        };
        assert(r.proto_ids@ =~= seq![0u16, 0u16, 0u16]);
        assert(r.kill_counts_req@ =~= seq![0u16, 0u16, 0u16]);
        assert(r.reward_item_ids@ =~= seq![0u32, 0u32, 0u32]);
        assert(r.reward_item_counts@ =~= seq![0u32, 0u32, 0u32]);
        assert(r.reward_item_times@ =~= seq![0u32, 0u32, 0u32]);
        assert(r.reward_item_rates@ =~= seq![0u8, 0u8, 0u8]);
        assert(r.reward_sessions@ =~= seq![0u8, 0u8, 0u8]);
        r
    }
}

/// A new, idle race.
pub fn new_collection_race_event() -> (r: CollectionRaceEvent)
    ensures
        r.is_idle(),
        r.wf(),
{
    CollectionRaceEvent::default()
}

/// A race definition.
#[derive(Debug, Clone)]
pub struct CrEventDef {
    pub event_id: i16,
    pub event_name: String,
    pub proto_ids: [u16; 3],
    pub kill_counts: [u16; 3],
    pub min_level: u8,
    pub max_level: u8,
    pub zone_id: u8,
    /// Length in minutes.
    pub event_time_mins: u32,
    pub user_limit: u16,
    pub event_list_status: u8,
    pub auto_start: bool,
    pub auto_hour: i32,
    pub auto_minute: i32,
}

// ── Start and end ────────────────────────────────────────────────────

/// A reward (item, count, time, rate, session) within the limits: at most
/// 9,999,999 gold or experience, at most 9999 of an item.
pub open spec fn reward_in_limits(r: (u32, u32, u32, u8, u8)) -> bool {
    if r.0 == ITEM_GOLD || r.0 == ITEM_EXP {
        r.1 <= CR_MAX_GOLD_EXP_REWARD
    } else {
        r.0 == 0 || r.1 <= CR_MAX_ITEM_REWARD
    }
}

/// `ev` runs the race `def` started at unix time `now` with the first
/// three `rewards` (rates capped at 100), nobody finished and no progress.
pub open spec fn started_race(
    ev: CollectionRaceEvent,
    def: CrEventDef,
    rewards: Seq<(u32, u32, u32, u8, u8)>,
    rank_bug: u32,
    now: u32,
) -> bool {
    &&& ev.is_active
    &&& !ev.request_pending
    &&& ev.event_end_time == now + def.event_time_mins * 60
    &&& ev.min_level == def.min_level
    &&& ev.max_level == def.max_level
    &&& ev.zone_id == def.zone_id
    &&& ev.user_limit == def.user_limit
    &&& ev.event_name@ == def.event_name@
    &&& ev.event_list_status == def.event_list_status
    &&& ev.proto_ids == def.proto_ids
    &&& ev.kill_counts_req == def.kill_counts
    &&& ev.total_count == 0
    &&& ev.rank_bug == if rank_bug == 0 {
        1
    } else {
        rank_bug
    }
    &&& ev.user_list@.len() == 0
    &&& forall|i: int|
        0 <= i < 3 ==> if i < rewards.len() {
            &&& ev.reward_item_ids@[i] == rewards[i].0
            &&& ev.reward_item_counts@[i] == rewards[i].1
            &&& ev.reward_item_times@[i] == rewards[i].2
            &&& ev.reward_item_rates@[i] == if rewards[i].3 > 100 {
                100
            } else {
                rewards[i].3
            }
            &&& ev.reward_sessions@[i] == rewards[i].4
        } else {
            &&& ev.reward_item_ids@[i] == 0
            &&& ev.reward_item_counts@[i] == 0
            &&& ev.reward_item_times@[i] == 0
            &&& ev.reward_item_rates@[i] == 0
            &&& ev.reward_sessions@[i] == 0
        }
}

/// Start the race `def` at unix time `now` with `rewards` (item, count,
/// time, rate, session) and the display multiplier `rank_bug` (0 counts
/// as 1), replacing any running race.
pub fn apply_start(
    ev: &mut CollectionRaceEvent,
    def: &CrEventDef,
    rewards: &Vec<(u32, u32, u32, u8, u8)>,
    rank_bug: u32,
    now: u32,
)
    requires
        now + def.event_time_mins * 60 <= u32::MAX,
    ensures
        started_race(*final(ev), *def, rewards@, rank_bug, now),
        final(ev).wf(),
{
    ev.is_active = true;
    ev.request_pending = false;
    ev.event_end_time = now + def.event_time_mins * 60;
    ev.min_level = def.min_level;
    ev.max_level = def.max_level;
    ev.zone_id = def.zone_id;
    ev.user_limit = def.user_limit;
    ev.event_name = def.event_name.clone();
    ev.event_list_status = def.event_list_status;
    ev.proto_ids = def.proto_ids;
    ev.kill_counts_req = def.kill_counts;
    ev.total_count = 0;
    ev.rank_bug = if rank_bug == 0 {
        1
    } else {
        rank_bug
    };
    ev.user_list = Vec::new();
    let mut i: usize = 0;
    while i < CR_REWARD_SLOTS
        invariant
            i <= 3,
            ev.is_active,
            !ev.request_pending,
            ev.event_end_time == now + def.event_time_mins * 60,
            ev.min_level == def.min_level,
            ev.max_level == def.max_level,
            ev.zone_id == def.zone_id,
            ev.user_limit == def.user_limit,
            ev.event_name@ == def.event_name@,
            ev.event_list_status == def.event_list_status,
            ev.proto_ids == def.proto_ids,
            ev.kill_counts_req == def.kill_counts,
            ev.total_count == 0,
            ev.rank_bug == if rank_bug == 0 {
                1
            } else {
                rank_bug
            },
            ev.user_list@.len() == 0,
            forall|k: int|
                0 <= k < i ==> if k < rewards@.len() {
                    &&& ev.reward_item_ids@[k] == rewards@[k].0
                    &&& ev.reward_item_counts@[k] == rewards@[k].1
                    &&& ev.reward_item_times@[k] == rewards@[k].2
                    &&& ev.reward_item_rates@[k] == if rewards@[k].3 > 100 {
                        100
                    } else {
                        rewards@[k].3
                    }
                    &&& ev.reward_sessions@[k] == rewards@[k].4
                } else {
                    &&& ev.reward_item_ids@[k] == 0
                    &&& ev.reward_item_counts@[k] == 0
                    &&& ev.reward_item_times@[k] == 0
                    &&& ev.reward_item_rates@[k] == 0
                    &&& ev.reward_sessions@[k] == 0
                },
        decreases 3 - i,
    {
        if i < rewards.len() {
            let (item_id, count, time, rate, session) = rewards[i];
            ev.reward_item_ids[i] = item_id;
            ev.reward_item_counts[i] = count;
            ev.reward_item_times[i] = time;
            ev.reward_item_rates[i] = if rate > 100 {
                100
            } else {
                rate
            };
            ev.reward_sessions[i] = session;
        } else {
            ev.reward_item_ids[i] = 0;
            ev.reward_item_counts[i] = 0;
            ev.reward_item_times[i] = 0;
            ev.reward_item_rates[i] = 0;
            ev.reward_sessions[i] = 0;
        }
        i = i + 1;
    }
}

/// Return the race to idle.
pub fn reset_event(ev: &mut CollectionRaceEvent)
    ensures
        final(ev).is_idle(),
        final(ev).wf(),
{
    *ev = CollectionRaceEvent::default();
}

/// Start the race `def`: refused (`false`, nothing changes) when a reward
/// exceeds its limit (see `reward_in_limits`); else any running race is
/// replaced (see `apply_start`).
pub fn start_event(
    ev: &mut CollectionRaceEvent,
    def: &CrEventDef,
    rewards: &Vec<(u32, u32, u32, u8, u8)>,
    rank_bug: u32,
    now: u32,
) -> (r: bool)
    requires
        (forall|k: int| 0 <= k < rewards@.len() ==> reward_in_limits(#[trigger] rewards@[k])) ==> now
            + def.event_time_mins * 60 <= u32::MAX,
        old(ev).wf(),
    ensures
        r == forall|k: int| 0 <= k < rewards@.len() ==> reward_in_limits(#[trigger] rewards@[k]),
        r ==> started_race(*final(ev), *def, rewards@, rank_bug, now),
        !r ==> *final(ev) == *old(ev),
        final(ev).wf(),
{
    let mut i: usize = 0;
    while i < rewards.len()
        invariant
            i <= rewards@.len(),
            *ev == *old(ev),
            ev.wf(),
            forall|k: int| 0 <= k < i ==> reward_in_limits(#[trigger] rewards@[k]),
        decreases rewards@.len() - i,
    {
        let (item_id, count, _time, _rate, _session) = rewards[i];
        if item_id == ITEM_GOLD || item_id == ITEM_EXP {
            if count > CR_MAX_GOLD_EXP_REWARD {
                assert(!reward_in_limits(rewards@[i as int]));
                return false;
            }
        } else if item_id != 0 && count > CR_MAX_ITEM_REWARD {
            assert(!reward_in_limits(rewards@[i as int]));
            return false;
        }
        i = i + 1;
    }
    if ev.is_active {
        reset_event(ev);
    }
    apply_start(ev, def, rewards, rank_bug, now);
    true
}

/// End the race: returns whether one was running (then its end is
/// announced), and the race is idle afterwards.
pub fn end_event(ev: &mut CollectionRaceEvent) -> (r: bool)
    ensures
        r == old(ev).is_active,
        final(ev).is_idle(),
        final(ev).wf(),
{
    let was_active = ev.is_active;
    reset_event(ev);
    was_active
}

/// Open the race `def` (the definition of the requested index, `None` when
/// it does not exist) at unix time `now`, with no rewards: a running race
/// ends first.
pub fn gm_open(ev: &mut CollectionRaceEvent, def: Option<&CrEventDef>, now: u32) -> (r: Result<
    &'static str,
    &'static str,
>)
    requires
        def matches Some(d) ==> now + d.event_time_mins * 60 <= u32::MAX,
        old(ev).wf(),
    ensures
        final(ev).wf(),
        def is None ==> (*final(ev) == *old(ev) && (r matches Err(m) && m@ == "CollectionRace sEventIndex is nullptr"@)),
        def matches Some(d) ==> (started_race(*final(ev), *d, Seq::empty(), 1, now) && (r matches Ok(m) && m@
            == "Collection Race start request sent."@)),
{
    let d = match def {
        Some(d) => d,
        None => return Err("CollectionRace sEventIndex is nullptr"),
    };
    if ev.is_active {
        end_event(ev);
    }
    let rewards: Vec<(u32, u32, u32, u8, u8)> = Vec::new();
    if !start_event(ev, d, &rewards, 1, now) {
        return Err("Failed to start Collection Race event");
    }
    Ok("Collection Race start request sent.")
}

/// Close the running race; refused when none runs.
pub fn gm_close(ev: &mut CollectionRaceEvent) -> (r: Result<&'static str, &'static str>)
    requires
        old(ev).wf(),
    ensures
        final(ev).wf(),
        !old(ev).is_active ==> (*final(ev) == *old(ev) && (r matches Err(m) && m@ == "CR event is already closed."@)),
        old(ev).is_active ==> (final(ev).is_idle() && (r matches Ok(m) && m@ == "Collection Race closed."@)),
{
    if !ev.is_active {
        return Err("CR event is already closed.");
    }
    end_event(ev);
    Ok("Collection Race closed.")
}

/// The announcement due `remaining` seconds before the end, if any.
pub open spec fn milestone_text(remaining: u32) -> Option<Seq<char>> {
    if remaining == 900 {
        Some("Collection Race: 15 minutes remaining."@)
    } else if remaining == 600 {
        Some("Collection Race: 10 minutes remaining."@)
    } else if remaining == 300 {
        Some("Collection Race: 5 minutes remaining."@)
    } else if remaining == 180 {
        Some("Collection Race: 3 minutes remaining."@)
    } else if remaining == 120 {
        Some("Collection Race: 2 minutes remaining."@)
    } else if remaining == 60 {
        Some("Collection Race: 1 minute remaining."@)
    } else {
        None
    }
}

/// The decimal digit `d` as a character.
pub open spec fn digit_char(d: int) -> char {
    (48 + d) as char
}

/// The decimal form of a number below 100.
pub open spec fn decimal(m: int) -> Seq<char> {
    if m < 10 {
        seq![digit_char(m)]
    } else {
        seq![digit_char(m / 10), digit_char(m % 10)]
    }
}

/// The notice that `m` minutes of the race are left.
pub open spec fn remaining_notice(m: int) -> Seq<char> {
    "Collection Race: "@ + decimal(m) + if m == 1 {
        " minute remaining."@
    } else {
        " minutes remaining."@
    }
}

/// The race announces the time left exactly at 15, 10, 5, 3, 2 and 1 whole
/// minutes before its end, each time with the notice of that many minutes.
pub proof fn lemma_milestones_announced(remaining: u32)
    ensures
        ({
            let m = remaining / 60;
            let due = remaining % 60 == 0 && (m == 15 || m == 10 || m == 5 || m == 3 || m == 2 || m == 1);
            &&& due ==> milestone_text(remaining) == Some(remaining_notice(m as int))
            &&& !due ==> milestone_text(remaining) is None
        }),
{
    reveal_strlit("Collection Race: ");
    reveal_strlit(" minute remaining.");
    reveal_strlit(" minutes remaining.");
    reveal_strlit("Collection Race: 15 minutes remaining.");
    reveal_strlit("Collection Race: 10 minutes remaining.");
    reveal_strlit("Collection Race: 5 minutes remaining.");
    reveal_strlit("Collection Race: 3 minutes remaining.");
    reveal_strlit("Collection Race: 2 minutes remaining.");
    reveal_strlit("Collection Race: 1 minute remaining.");
    let m = remaining / 60;
    if remaining == 900 {
        assert(milestone_text(remaining)->0 =~= remaining_notice(15));
    } else if remaining == 600 {
        assert(milestone_text(remaining)->0 =~= remaining_notice(10));
    } else if remaining == 300 {
        assert(milestone_text(remaining)->0 =~= remaining_notice(5));
    } else if remaining == 180 {
        assert(milestone_text(remaining)->0 =~= remaining_notice(3));
    } else if remaining == 120 {
        assert(milestone_text(remaining)->0 =~= remaining_notice(2));
    } else if remaining == 60 {
        assert(milestone_text(remaining)->0 =~= remaining_notice(1));
    }
}

/// What a second of the race leads to.
#[derive(Debug, Clone, PartialEq, Eq)]
pub enum CrTick {
    /// Nothing.
    Idle,
    /// Announce this text to everyone.
    Announce(String),
    /// Time is up: end the race.
    End,
}

/// One second of the race at unix time `now`: the milestones 15, 10, 5,
/// 3, 2 and 1 minutes before the end are announced, and at the end time
/// the race ends. Nothing happens while no race runs.
pub fn tick_timer(ev: &CollectionRaceEvent, now: u32) -> (r: CrTick)
    ensures
        ({
            let remaining: u32 = if ev.event_end_time > now {
                (ev.event_end_time - now) as u32
            } else {
                0
            };
            if !ev.is_active {
                r == CrTick::Idle
            } else if milestone_text(remaining) is Some {
                r matches CrTick::Announce(m) && m@ == milestone_text(remaining)->0
            } else if remaining == 0 {
                r == CrTick::End
            } else {
                r == CrTick::Idle
            }
        }),
{
    if !ev.is_active {
        return CrTick::Idle;
    }
    let remaining = ev.event_end_time.saturating_sub(now);
    if remaining == 900 {
        CrTick::Announce("Collection Race: 15 minutes remaining.".to_owned())
    } else if remaining == 600 {
        CrTick::Announce("Collection Race: 10 minutes remaining.".to_owned())
    } else if remaining == 300 {
        CrTick::Announce("Collection Race: 5 minutes remaining.".to_owned())
    } else if remaining == 180 {
        CrTick::Announce("Collection Race: 3 minutes remaining.".to_owned())
    } else if remaining == 120 {
        CrTick::Announce("Collection Race: 2 minutes remaining.".to_owned())
    } else if remaining == 60 {
        CrTick::Announce("Collection Race: 1 minute remaining.".to_owned())
    } else if remaining == 0 {
        CrTick::End
    } else {
        CrTick::Idle
    }
}

/// Whether a player of `level` takes part (the race's level range).
pub fn is_eligible_level(ev: &CollectionRaceEvent, level: u8) -> (r: bool)
    ensures
        r == (ev.min_level <= level && level <= ev.max_level),
{
    level >= ev.min_level && level <= ev.max_level
}

// ── Kills ────────────────────────────────────────────────────────────

/// The race progress kept in a player's session.
#[derive(Debug, Clone, Copy, PartialEq, Eq)]
pub struct CrSession {
    pub kill_counts: [u16; 3],
    /// The player is done with this race.
    pub check_finish: bool,
}

/// The kills required for `req` in round `user_status`: from the second
/// round on, two and a half times as many (rounded down, at most 65535).
pub open spec fn required_count(req: u16, user_status: u8) -> u16 {
    if user_status > 0 {
        if req * 5 / 2 > 65535 {
            65535
        } else {
            (req * 5 / 2) as u16
        }
    } else {
        req
    }
}

/// The first round asks the listed number of kills; every later round
/// asks two and a half times as many (rounded down, at most 65535), never
/// fewer than the first, and more kills listed never ask fewer.
pub proof fn lemma_later_rounds_ask_more(req: u16, req2: u16, status: u8)
    ensures
        required_count(req, 0) == req,
        status > 0 && req <= 26214 ==> 2 * required_count(req, status) <= 5 * req < 2 * required_count(req, status)
            + 2,
        status > 0 && req > 26214 ==> required_count(req, status) == 65535,
        required_count(req, status) >= req,
        req <= req2 ==> required_count(req, status) <= required_count(req2, status),
{
}

/// The kills required for `req` in round `user_status`.
pub fn required_kills(req: u16, user_status: u8) -> (r: u16)
    ensures
        r == required_count(req, user_status),
{
    if user_status > 0 {
        let x: u32 = req as u32 * 5 / 2;
        if x > 65535 {
            65535
        } else {
            x as u16
        }
    } else {
        req
    }
}

/// Slot `i` counts a kill of `proto_id` by a player in round `status`
/// with `kills` so far: the slot is that monster and still short of its
/// required count.
pub open spec fn counts_kill(ev: CollectionRaceEvent, status: u8, proto_id: u16, kills: [u16; 3], i: int) -> bool {
    let req = required_count(ev.kill_counts_req[i], status);
    ev.proto_ids[i] != 0 && ev.proto_ids[i] == proto_id && req != 0 && kills[i] < req
}

/// The kills of slot `i` after a kill of `proto_id`.
pub open spec fn slot_after_kill(ev: CollectionRaceEvent, status: u8, proto_id: u16, kills: [u16; 3], i: int) -> u16 {
    if counts_kill(ev, status, proto_id, kills, i) {
        (kills[i] + 1) as u16
    } else {
        kills[i]
    }
}

/// The kills after a kill of `proto_id`.
pub open spec fn after_kill(ev: CollectionRaceEvent, status: u8, proto_id: u16, kills: [u16; 3]) -> [u16; 3] {
    [
        slot_after_kill(ev, status, proto_id, kills, 0),
        slot_after_kill(ev, status, proto_id, kills, 1),
        slot_after_kill(ev, status, proto_id, kills, 2),
    ]
}

/// Every used slot reached its required count.
pub open spec fn all_slots_done(ev: CollectionRaceEvent, status: u8, kills: [u16; 3]) -> bool {
    forall|i: int|
        0 <= i < 3 ==> required_count(ev.kill_counts_req[i], status) == 0 || kills[i]
            >= required_count(ev.kill_counts_req[i], status)
}

/// What a kill leads to.
#[derive(Debug, Clone, Copy, PartialEq, Eq)]
pub enum CrKillOutcome {
    /// Nothing: no race, the player takes no part or is done, or the kill
    /// counts for no slot.
    Ignored,
    /// The kill counted; the player's kills are now `kill_counts`.
    Progress { kill_counts: [u16; 3] },
    /// The kill completed every slot: the player finished (and is done
    /// when `close_for_player`); `new_total` finishers so far, shown with
    /// the race's `rank_bug` against its `user_limit`. When `event_ended`
    /// the finisher limit is reached and the race has ended: its end is to
    /// be announced.
    Finished {
        kill_counts: [u16; 3],
        close_for_player: bool,
        event_ended: bool,
        new_total: u16,
        rank_bug: u32,
        user_limit: u16,
    },
}

/// A player's progress before its first kill.
pub open spec fn fresh_user() -> CrUserList {
    CrUserList { kill_counts: [0u16, 0u16, 0u16], is_finish: false, user_status: 0 }
}

/// The player's recorded kills after a kill: the slots that counted it
/// take the session's new count, the others keep the recorded one.
pub open spec fn merged_kills(ev: CollectionRaceEvent, e: CrUserList, sess: CrSession, proto_id: u16) -> [u16; 3] {
    let status = e.user_status;
    let kills = after_kill(ev, status, proto_id, sess.kill_counts);
    [
        if counts_kill(ev, status, proto_id, sess.kill_counts, 0) {
            kills[0]
        } else {
            e.kill_counts[0]
        },
        if counts_kill(ev, status, proto_id, sess.kill_counts, 1) {
            kills[1]
        } else {
            e.kill_counts[1]
        },
        if counts_kill(ev, status, proto_id, sess.kill_counts, 2) {
            kills[2]
        } else {
            e.kill_counts[2]
        },
    ]
}

/// The outcome of a counted kill (at least one slot counts it) for a
/// player with progress `e` and session `sess`: the new progress, session
/// and finisher count. A finisher's round is over in repeat mode 0, after
/// the second round in mode 1, and never in mode 2; when it is not over,
/// the kills start again from 0.
pub open spec fn counted_kill(
    ev: CollectionRaceEvent,
    e: CrUserList,
    sess: CrSession,
    proto_id: u16,
) -> (CrKillOutcome, CrUserList, CrSession, u16) {
    let status = e.user_status;
    let kills = after_kill(ev, status, proto_id, sess.kill_counts);
    let merged = merged_kills(ev, e, sess, proto_id);
    if !all_slots_done(ev, status, kills) {
        (
            CrKillOutcome::Progress { kill_counts: kills },
            CrUserList { kill_counts: merged, ..e },
            CrSession { kill_counts: kills, ..sess },
            ev.total_count,
        )
    } else {
        let ls = ev.event_list_status;
        let new_status: u8 = if ls == 1 {
            (status + 1) as u8
        } else {
            status
        };
        let save = ls == 0 || (ls == 1 && new_status > 1);
        let close = save && ls != 2;
        let total = (ev.total_count + 1) as u16;
        (
            CrKillOutcome::Finished {
                kill_counts: kills,
                close_for_player: close,
                event_ended: total >= ev.user_limit,
                new_total: total,
                rank_bug: ev.rank_bug,
                user_limit: ev.user_limit,
            },
            CrUserList {
                kill_counts: if close {
                    merged
                } else {
                    [0u16, 0u16, 0u16]
                },
                is_finish: e.is_finish || save,
                user_status: new_status,
            },
            CrSession {
                kill_counts: if close {
                    kills
                } else {
                    [0u16, 0u16, 0u16]
                },
                check_finish: sess.check_finish || save,
            },
            total,
        )
    }
}

/// Position of the progress of `name` in the list.
pub open spec fn user_index(list: Seq<(String, CrUserList)>, name: Seq<char>) -> Option<int> {
    if exists|k: int| 0 <= k < list.len() && (#[trigger] list[k]).0@ == name {
        Some(choose|k: int| 0 <= k < list.len() && (#[trigger] list[k]).0@ == name)
    } else {
        None
    }
}

/// The progress of `name` (a fresh one when the name has none).
pub open spec fn progress_of(list: Seq<(String, CrUserList)>, name: Seq<char>) -> CrUserList {
    match user_index(list, name) {
        Some(k) => list[k].1,
        None => fresh_user(),
    }
}

/// The progress list after `name` got `p`: its entry changes, or a new
/// entry is added at the end; every other entry is kept.
pub open spec fn list_with(
    old_list: Seq<(String, CrUserList)>,
    new_list: Seq<(String, CrUserList)>,
    name: Seq<char>,
    p: CrUserList,
) -> bool {
    match user_index(old_list, name) {
        Some(k) => new_list.len() == old_list.len() && new_list[k].0@ == name && new_list[k].1 == p
            && forall|j: int| 0 <= j < old_list.len() && j != k ==> #[trigger] new_list[j] == old_list[j],
        None => new_list.len() == old_list.len() + 1 && new_list[old_list.len() as int].0@ == name
            && new_list[old_list.len() as int].1 == p && forall|j: int|
            0 <= j < old_list.len() ==> #[trigger] new_list[j] == old_list[j],
    }
}

/// In a list whose names are distinct, the position of a name is the one
/// that holds it.
proof fn lemma_user_index(list: Seq<(String, CrUserList)>, name: Seq<char>, k: int)
    requires
        0 <= k < list.len(),
        list[k].0@ == name,
        forall|i: int, j: int| 0 <= i < j < list.len() ==> (#[trigger] list[i]).0@ != (#[trigger] list[j]).0@,
    ensures
        user_index(list, name) == Some(k),
{
    let c = choose|c: int| 0 <= c < list.len() && (#[trigger] list[c]).0@ == name;
    if c < k {
        assert(list[c].0@ != list[k].0@);
    } else if c > k {
        assert(list[k].0@ != list[c].0@);
    }
}

/// Find the progress of `name`; returns its position, or the list's
/// length when it has none.
fn find_user(list: &Vec<(String, CrUserList)>, name: &String) -> (r: usize)
    requires
        forall|i: int, j: int| 0 <= i < j < list@.len() ==> (#[trigger] list@[i]).0@ != (#[trigger] list@[j]).0@,
    ensures
        r <= list@.len(),
        r < list@.len() ==> user_index(list@, name@) == Some(r as int),
        r == list@.len() ==> (user_index(list@, name@) is None),
{
    let mut i: usize = 0;
    while i < list.len()
        invariant
            i <= list@.len(),
            forall|a: int, b: int| 0 <= a < b < list@.len() ==> (#[trigger] list@[a]).0@ != (#[trigger] list@[b]).0@,
            forall|j: int| 0 <= j < i ==> (#[trigger] list@[j]).0@ != name@,
        decreases list@.len() - i,
    {
        if list[i].0 == *name {
            proof {
                lemma_user_index(list@, name@, i as int);
            }
            return i;
        }
        i = i + 1;
    }
    i
}

/// The race `ev` and session `sess` are unchanged but for the progress
/// list and the finisher count.
pub open spec fn race_kept(a: CollectionRaceEvent, b: CollectionRaceEvent) -> bool {
    b == CollectionRaceEvent { user_list: b.user_list, total_count: b.total_count, ..a }
}

/// A player named `char_name` (upper case) of `level`, with session
/// progress `session`, killed a monster of template `proto_id`.
///
/// Nothing happens unless a race runs, the level is in its range and the
/// player is not done. The player's progress is then looked up (a fresh
/// one is added when it has none); a finished progress stops here too.
/// Otherwise each slot of that monster still short of its required count
/// counts the kill (see `counted_kill`); when no slot counts it nothing
/// more happens. A finisher is given the race's rewards (returned with the
/// outcome, see `give_rewards`), and a finish that reaches the finisher
/// limit ends the race, which is then idle.
pub fn handle_kill(
    ev: &mut CollectionRaceEvent,
    session: &mut CrSession,
    char_name: &String,
    level: u8,
    proto_id: u16,
) -> (r: (CrKillOutcome, Vec<(usize, u32, u32, u32)>))
    requires
        old(ev).wf(),
        old(ev).total_count < u16::MAX,
    ensures
        final(ev).wf(),
        !(r.0 is Finished) ==> r.1@.len() == 0,
        r.0 is Finished ==> exists|rolls: Seq<u32>|
            rolls.len() == 3 && (forall|i: int| 0 <= i < 3 ==> #[trigger] rolls[i] < 10000) && r.1@
                == rewards_for_rolls(*old(ev), rolls, 3),
        !old(ev).is_active || level < old(ev).min_level || level > old(ev).max_level
            || old(session).check_finish ==> r.0 == CrKillOutcome::Ignored && *final(ev) == *old(ev)
            && *final(session) == *old(session),
        old(ev).is_active && old(ev).min_level <= level <= old(ev).max_level && !old(session).check_finish
            ==> {
            let e = progress_of(old(ev).user_list@, char_name@);
            let status = e.user_status;
            let counted = exists|i: int| 0 <= i < 3 && counts_kill(*old(ev), status, proto_id, old(session).kill_counts, i);
            if e.is_finish || !counted {
                &&& r.0 == CrKillOutcome::Ignored
                &&& *final(session) == *old(session)
                &&& race_kept(*old(ev), *final(ev))
                &&& final(ev).total_count == old(ev).total_count
                &&& list_with(old(ev).user_list@, final(ev).user_list@, char_name@, e)
            } else {
                let (out, p, s, total) = counted_kill(*old(ev), e, *old(session), proto_id);
                &&& r.0 == out
                &&& *final(session) == s
                &&& if out matches CrKillOutcome::Finished { event_ended: true, .. } {
                    final(ev).is_idle()
                } else {
                    &&& race_kept(*old(ev), *final(ev))
                    &&& final(ev).total_count == total
                    &&& list_with(old(ev).user_list@, final(ev).user_list@, char_name@, p)
                }
            }
        },
{
    if !ev.is_active || level < ev.min_level || level > ev.max_level || session.check_finish {
        return (CrKillOutcome::Ignored, Vec::new());
    }
    let ghost ev0 = *ev;
    let k = find_user(&ev.user_list, char_name);
    let e: CrUserList = if k < ev.user_list.len() {
        ev.user_list[k].1
    } else {
        CrUserList::default()
    };
    proof {
        if k == ev0.user_list@.len() {
            assert(e.kill_counts =~= [0u16, 0u16, 0u16]);
        }
        assert(e == progress_of(ev0.user_list@, char_name@));
    }
    let status = e.user_status;
    let mut kills = session.kill_counts;
    let mut merged = e.kill_counts;
    let mut matched = false;
    let mut i: usize = 0;
    while i < CR_SLOTS
        invariant
            i <= 3,
            *ev == ev0,
            status == e.user_status,
            forall|j: int| 0 <= j < i ==> kills[j] == slot_after_kill(ev0, status, proto_id, old(session).kill_counts, j),
            forall|j: int| i <= j < 3 ==> kills[j] == old(session).kill_counts[j],
            forall|j: int| 0 <= j < i ==> merged[j] == if counts_kill(ev0, status, proto_id, old(session).kill_counts, j) {
                kills[j]
            } else {
                e.kill_counts[j]
            },
            forall|j: int| i <= j < 3 ==> merged[j] == e.kill_counts[j],
            matched == (exists|j: int| 0 <= j < i && counts_kill(ev0, status, proto_id, old(session).kill_counts, j)),
        decreases 3 - i,
    {
        let mut counts = false;
        if ev.proto_ids[i] != 0 && ev.proto_ids[i] == proto_id {
            let required = required_kills(ev.kill_counts_req[i], status);
            if required != 0 && kills[i] < required {
                counts = true;
            }
        }
        assert(counts == counts_kill(ev0, status, proto_id, old(session).kill_counts, i as int));
        if counts {
            kills[i] = kills[i] + 1;
            merged[i] = kills[i];
            matched = true;
        }
        i = i + 1;
    }
    proof {
        assert(kills =~= after_kill(ev0, status, proto_id, old(session).kill_counts));
    }
    if e.is_finish || !matched {
        self::store_user(ev, k, char_name, e);
        return (CrKillOutcome::Ignored, Vec::new());
    }
    let mut all_done = true;
    let mut j: usize = 0;
    while j < CR_SLOTS
        invariant
            j <= 3,
            *ev == ev0,
            all_done == (forall|m: int|
                0 <= m < j ==> required_count(ev0.kill_counts_req[m], status) == 0 || kills[m]
                    >= required_count(ev0.kill_counts_req[m], status)),
        decreases 3 - j,
    {
        let required = required_kills(ev.kill_counts_req[j], status);
        if required != 0 && kills[j] < required {
            all_done = false;
        }
        j = j + 1;
    }
    if !all_done {
        session.kill_counts = kills;
        let mut p = e;
        p.kill_counts = merged;
        self::store_user(ev, k, char_name, p);
        proof {
            assert(merged =~= merged_kills(ev0, e, *old(session), proto_id));
        }
        return (CrKillOutcome::Progress { kill_counts: kills }, Vec::new());
    }
    let rewards = give_rewards(ev);
    let ls = ev.event_list_status;
    let new_status: u8 = if ls == 1 {
        status + 1
    } else {
        status
    };
    let save = ls == 0 || (ls == 1 && new_status > 1);
    let close = save && ls != 2;
    let mut p = e;
    p.user_status = new_status;
    p.is_finish = e.is_finish || save;
    session.check_finish = session.check_finish || save;
    if close {
        p.kill_counts = merged;
        session.kill_counts = kills;
    } else {
        p.kill_counts = [0u16; 3];
        session.kill_counts = [0u16; 3];
    }
    proof {
        assert(merged =~= merged_kills(ev0, e, *old(session), proto_id));
        if !close {
            assert(p.kill_counts =~= [0u16, 0u16, 0u16]);
            assert(session.kill_counts =~= [0u16, 0u16, 0u16]);
        }
    }
    self::store_user(ev, k, char_name, p);
    ev.total_count = ev.total_count + 1;
    let total = ev.total_count;
    let rank_bug = ev.rank_bug;
    let user_limit = ev.user_limit;
    let event_ended = total >= user_limit;
    if event_ended {
        end_event(ev);
    }
    (CrKillOutcome::Finished { kill_counts: kills, close_for_player: close, event_ended, new_total: total, rank_bug, user_limit }, rewards)
}

/// Record the progress `p` of `name` at position `k` (found by
/// `find_user`; the list's length adds a new entry).
fn store_user(ev: &mut CollectionRaceEvent, k: usize, name: &String, p: CrUserList)
    requires
        old(ev).wf(),
        user_wf(p),
        k <= old(ev).user_list@.len(),
        k < old(ev).user_list@.len() ==> user_index(old(ev).user_list@, name@) == Some(k as int),
        k == old(ev).user_list@.len() ==> (user_index(old(ev).user_list@, name@) is None),
    ensures
        final(ev).wf(),
        *final(ev) == (CollectionRaceEvent { user_list: final(ev).user_list, ..*old(ev) }),
        list_with(old(ev).user_list@, final(ev).user_list@, name@, p),
{
    let ghost before = ev.user_list@;
    if k < ev.user_list.len() {
        let n = ev.user_list[k].0.clone();
        ev.user_list.set(k, (n, p));
        proof {
            assert forall|i: int, j: int|
                0 <= i < j < ev.user_list@.len() implies (#[trigger] ev.user_list@[i]).0@
                != (#[trigger] ev.user_list@[j]).0@ by {
                assert(before[i].0@ != before[j].0@);
            }
        }
    } else {
        ev.user_list.push((name.clone(), p));
        proof {
            assert forall|i: int, j: int|
                0 <= i < j < ev.user_list@.len() implies (#[trigger] ev.user_list@[i]).0@
                != (#[trigger] ev.user_list@[j]).0@ by {
                if j == before.len() {
                    assert(before[i].0@ != name@);
                } else {
                    assert(before[i].0@ != before[j].0@);
                }
            }
        }
    }
}

/// What a player entering the game sees of the race: its recorded kills,
/// its round, and the seconds left.
#[derive(Debug, Clone, Copy, PartialEq, Eq)]
pub struct CrEntryView {
    pub kill_counts: [u16; 3],
    pub user_status: u8,
    pub remaining_secs: u32,
}

/// A player named `char_name` (upper case) of `level` enters the game at
/// unix time `now`: when a race runs, has time left and the level is in
/// its range, the player's progress is looked up (a fresh one is added
/// when it has none) and, unless it is done, shown.
pub fn send_on_game_entry(ev: &mut CollectionRaceEvent, char_name: &String, level: u8, now: u32) -> (r: Option<
    CrEntryView,
>)
    requires
        old(ev).wf(),
    ensures
        final(ev).wf(),
        !old(ev).is_active || old(ev).event_end_time <= now || level < old(ev).min_level || level
            > old(ev).max_level ==> (r is None && *final(ev) == *old(ev)),
        old(ev).is_active && old(ev).event_end_time > now && old(ev).min_level <= level <= old(ev).max_level
            ==> {
            let e = progress_of(old(ev).user_list@, char_name@);
            &&& race_kept(*old(ev), *final(ev))
            &&& final(ev).total_count == old(ev).total_count
            &&& list_with(old(ev).user_list@, final(ev).user_list@, char_name@, e)
            &&& r == if e.is_finish {
                None
            } else {
                Some(
                    CrEntryView {
                        kill_counts: e.kill_counts,
                        user_status: e.user_status,
                        remaining_secs: (old(ev).event_end_time - now) as u32,
                    },
                )
            }
        },
{
    if !ev.is_active || ev.event_end_time <= now || level < ev.min_level || level > ev.max_level {
        return None;
    }
    let ghost ev0 = *ev;
    let k = find_user(&ev.user_list, char_name);
    let e: CrUserList = if k < ev.user_list.len() {
        ev.user_list[k].1
    } else {
        CrUserList::default()
    };
    proof {
        if k == ev0.user_list@.len() {
            assert(e.kill_counts =~= [0u16, 0u16, 0u16]);
        }
        assert(e == progress_of(ev0.user_list@, char_name@));
    }
    let remaining = ev.event_end_time - now;
    self::store_user(ev, k, char_name, e);
    if e.is_finish {
        None
    } else {
        Some(CrEntryView { kill_counts: e.kill_counts, user_status: e.user_status, remaining_secs: remaining })
    }
}

// ── Rewards ──────────────────────────────────────────────────────────

/// Whether a reward with chance `rate` percent (0 for always) is given on
/// a roll of `roll` out of 10000.
pub open spec fn reward_roll_passes(rate: u8, roll: u32) -> bool {
    rate == 0 || rate * 100 >= roll
}

/// The rewards (slot, item, count, time) given to a finisher of `ev` for
/// the rolls `rolls` (one per slot, out of 10000): the slots with an item
/// and a count, in order, whose roll passes.
pub open spec fn rewards_for_rolls(ev: CollectionRaceEvent, rolls: Seq<u32>, n: int) -> Seq<(usize, u32, u32, u32)>
    decreases n,
{
    if n <= 0 {
        Seq::empty()
    } else {
        let i = n - 1;
        let before = rewards_for_rolls(ev, rolls, i);
        if ev.reward_item_ids[i] != 0 && ev.reward_item_counts[i] != 0 && reward_roll_passes(
            ev.reward_item_rates[i],
            rolls[i],
        ) {
            before.push((i as usize, ev.reward_item_ids[i], ev.reward_item_counts[i], ev.reward_item_times[i]))
        } else {
            before
        }
    }
}

/// The rewards given to a finisher of `ev` for the rolls `rolls`.
pub fn accepted_rewards_for_rolls(ev: &CollectionRaceEvent, rolls: [u32; 3]) -> (r: Vec<(usize, u32, u32, u32)>)
    ensures
        r@ == rewards_for_rolls(*ev, rolls@, 3),
{
    let mut acc: Vec<(usize, u32, u32, u32)> = Vec::new();
    let mut i: usize = 0;
    while i < CR_REWARD_SLOTS
        invariant
            i <= 3,
            acc@ == rewards_for_rolls(*ev, rolls@, i as int),
        decreases 3 - i,
    {
        let item_id = ev.reward_item_ids[i];
        let count = ev.reward_item_counts[i];
        let rate = ev.reward_item_rates[i];
        if item_id != 0 && count != 0 && (rate == 0 || rate as u32 * 100 >= rolls[i]) {
            acc.push((i, item_id, count, ev.reward_item_times[i]));
        }
        i = i + 1;
    }
    acc
}

/// Draw the rewards of a finisher of `ev`: each slot with an item, a
/// count and a chance below 100 percent rolls out of 10000 (see
/// `rewards_for_rolls`).
pub fn give_rewards(ev: &CollectionRaceEvent) -> (r: Vec<(usize, u32, u32, u32)>)
    ensures
        exists|rolls: Seq<u32>|
            rolls.len() == 3 && (forall|i: int| 0 <= i < 3 ==> #[trigger] rolls[i] < 10000) && r@
                == rewards_for_rolls(*ev, rolls, 3),
{
    let mut rolls: [u32; 3] = [0u32; 3];
    let mut i: usize = 0;
    while i < CR_REWARD_SLOTS
        invariant
            i <= 3,
            forall|k: int| 0 <= k < 3 ==> #[trigger] rolls[k] < 10000,
        decreases 3 - i,
    {
        if ev.reward_item_ids[i] != 0 && ev.reward_item_counts[i] != 0 && ev.reward_item_rates[i] > 0 {
            rolls[i] = random_between(0, 9999) as u32;
        }
        i = i + 1;
    }
    let r = accepted_rewards_for_rolls(ev, rolls);
    proof {
        assert(rolls@.len() == 3);
        assert(forall|k: int| 0 <= k < 3 ==> #[trigger] rolls@[k] < 10000);
        assert(rolls@.len() == 3 && (forall|k: int| 0 <= k < 3 ==> #[trigger] rolls@[k] < 10000) && r@
            == rewards_for_rolls(*ev, rolls@, 3));
    }
    r
}

/// How a reward is given.
#[derive(Debug, Clone, Copy, PartialEq, Eq, Structural)]
pub enum CrRewardKind {
    Gold,
    Exp,
    /// National points.
    Loyalty,
    /// An item drawn from the random pool.
    Random,
    /// The item itself.
    Item,
}

/// How the reward `item_id` is given: the virtual gold, experience,
/// national point and random items, or the item itself.
pub fn reward_kind(item_id: u32) -> (r: CrRewardKind)
    ensures
        r == if item_id == ITEM_GOLD {
            CrRewardKind::Gold
        } else if item_id == ITEM_EXP {
            CrRewardKind::Exp
        } else if item_id == ITEM_COUNT {
            CrRewardKind::Loyalty
        } else if item_id == ITEM_RANDOM {
            CrRewardKind::Random
        } else {
            CrRewardKind::Item
        },
{
    if item_id == ITEM_GOLD {
        CrRewardKind::Gold
    } else if item_id == ITEM_EXP {
        CrRewardKind::Exp
    } else if item_id == ITEM_COUNT {
        CrRewardKind::Loyalty
    } else if item_id == ITEM_RANDOM {
        CrRewardKind::Random
    } else {
        CrRewardKind::Item
    }
}

/// The item of a random reward pool of `pool_len` items that `seed` (the
/// sub-second nanoseconds of the clock) picks: `seed` modulo the pool
/// size; none from an empty pool.
pub fn pick_reward_index(seed: usize, pool_len: usize) -> (r: Option<usize>)
    ensures
        pool_len == 0 ==> r is None,
        pool_len > 0 ==> r == Some((seed % pool_len) as usize),
{
    if pool_len == 0 {
        None
    } else {
        Some(seed % pool_len)
    }
}

// ── Laws ─────────────────────────────────────────────────────────────

/// A finisher is always given every reward with an item, a count and a
/// guaranteed chance (0 or at least 100 percent), whatever the rolls.
pub proof fn lemma_guaranteed_rewards_given(ev: CollectionRaceEvent, rolls: Seq<u32>, i: int)
    requires
        0 <= i < 3,
        rolls.len() == 3,
        forall|k: int| 0 <= k < 3 ==> #[trigger] rolls[k] < 10000,
        ev.reward_item_ids[i] != 0,
        ev.reward_item_counts[i] != 0,
        ev.reward_item_rates[i] == 0 || ev.reward_item_rates[i] >= 100,
    ensures
        rewards_for_rolls(ev, rolls, 3).contains(
            (i as usize, ev.reward_item_ids[i], ev.reward_item_counts[i], ev.reward_item_times[i]),
        ),
{
    lemma_rewards_prefix_kept(ev, rolls, i + 1, 3);
    let s = rewards_for_rolls(ev, rolls, i + 1);
    assert(s.last() == (i as usize, ev.reward_item_ids[i], ev.reward_item_counts[i], ev.reward_item_times[i]));
    assert(rewards_for_rolls(ev, rolls, 3)[s.len() - 1] == s.last());
}

/// Later slots only add rewards after the earlier ones.
proof fn lemma_rewards_prefix_kept(ev: CollectionRaceEvent, rolls: Seq<u32>, a: int, b: int)
    requires
        0 <= a <= b,
    ensures
        rewards_for_rolls(ev, rolls, a).len() <= rewards_for_rolls(ev, rolls, b).len(),
        forall|k: int|
            0 <= k < rewards_for_rolls(ev, rolls, a).len() ==> #[trigger] rewards_for_rolls(ev, rolls, b)[k]
                == rewards_for_rolls(ev, rolls, a)[k],
    decreases b - a,
{
    if a < b {
        lemma_rewards_prefix_kept(ev, rolls, a, b - 1);
    }
}

/// A finish that brings the finishers to the limit reports the end of the
/// race (which `handle_kill` then ends), so the number of finishers never
/// passes the limit by more than one finish.
pub proof fn lemma_finish_at_limit_ends_race(ev: CollectionRaceEvent, e: CrUserList, sess: CrSession, proto_id: u16)
    requires
        counted_kill(ev, e, sess, proto_id).0 is Finished,
        ev.total_count < u16::MAX,
        ev.total_count + 1 >= ev.user_limit,
    ensures
        counted_kill(ev, e, sess, proto_id).0->event_ended,
{
}

/// In repeat mode 0 a finisher is done after one round; in mode 2 it never
/// is, and its kills start again from zero.
pub proof fn lemma_repeat_modes(ev: CollectionRaceEvent, e: CrUserList, sess: CrSession, proto_id: u16)
    requires
        counted_kill(ev, e, sess, proto_id).0 is Finished,
    ensures
        ev.event_list_status == 0 ==> counted_kill(ev, e, sess, proto_id).1.is_finish && counted_kill(
            ev,
            e,
            sess,
            proto_id,
        ).2.check_finish,
        ev.event_list_status == 2 ==> !counted_kill(ev, e, sess, proto_id).0->close_for_player
            && counted_kill(ev, e, sess, proto_id).2.kill_counts@ == seq![0u16, 0u16, 0u16],
{
    if ev.event_list_status == 2 {
        assert(counted_kill(ev, e, sess, proto_id).2.kill_counts@ =~= seq![0u16, 0u16, 0u16]);
    }
}

// ── Packets ──────────────────────────────────────────────────────────

/// The opcode of extension-hook packets, which carry the race's notices.
pub const EXT_HOOK_S2C: u8 = 0xE9;

/// The quest opcode, which carries the finisher's rewards.
pub const WIZ_QUEST: u8 = 0x64;

/// The quest sub-opcode of the race rewards.
pub const QUEST_SUB_CR_REWARD: u8 = 0x0A;

/// The finisher count shown to players: the count times the multiplier,
/// taken modulo 2^16.
pub open spec fn shown_total(total_count: u16, rank_bug: u32) -> int {
    (total_count * rank_bug) % 65536
}

/// The rewards of the race: for each slot the item, the count and the rate.
pub open spec fn cr_reward_bytes(ev: CollectionRaceEvent) -> Seq<u8> {
    le4(ev.reward_item_ids[0] as int) + le4(ev.reward_item_counts[0] as int) + seq![ev.reward_item_rates[0]]
        + le4(ev.reward_item_ids[1] as int) + le4(ev.reward_item_counts[1] as int) + seq![ev.reward_item_rates[1]]
        + le4(ev.reward_item_ids[2] as int) + le4(ev.reward_item_counts[2] as int) + seq![ev.reward_item_rates[2]]
}

/// What closes the start and refresh notices: the shown finisher count, the
/// finisher limit, the nation, the race's name and its zone.
pub open spec fn cr_tail(ev: CollectionRaceEvent, nation: u8) -> Seq<u8> {
    le2(shown_total(ev.total_count, ev.rank_bug)) + le2(ev.user_limit as int) + seq![nation]
        + seq![utf8(ev.event_name@).len() as u8] + utf8(ev.event_name@)
        + seq![ev.zone_id]
}

fn write_cr_rewards(pkt: &mut Packet, ev: &CollectionRaceEvent)
    ensures
        final(pkt).opcode == old(pkt).opcode,
        final(pkt).data@ == old(pkt).data@ + cr_reward_bytes(*ev),
{
    let mut i: usize = 0;
    while i < CR_REWARD_SLOTS
        invariant
            i <= CR_REWARD_SLOTS,
            pkt.opcode == old(pkt).opcode,
            pkt.data@ == old(pkt).data@ + (if i == 0 {
                Seq::empty()
            } else if i == 1 {
                le4(ev.reward_item_ids[0] as int) + le4(ev.reward_item_counts[0] as int) + seq![ev.reward_item_rates[0]]
            } else if i == 2 {
                le4(ev.reward_item_ids[0] as int) + le4(ev.reward_item_counts[0] as int) + seq![ev.reward_item_rates[0]]
                    + le4(ev.reward_item_ids[1] as int) + le4(ev.reward_item_counts[1] as int) + seq![ev.reward_item_rates[1]]
            } else {
                cr_reward_bytes(*ev)
            }),
        decreases CR_REWARD_SLOTS - i,
    {
        pkt.write_u32(ev.reward_item_ids[i]);
        pkt.write_u32(ev.reward_item_counts[i]);
        pkt.write_u8(ev.reward_item_rates[i]);
        assert(pkt.data@ =~= old(pkt).data@ + (if i + 1 == 1 {
            le4(ev.reward_item_ids[0] as int) + le4(ev.reward_item_counts[0] as int) + seq![ev.reward_item_rates[0]]
        } else if i + 1 == 2 {
            le4(ev.reward_item_ids[0] as int) + le4(ev.reward_item_counts[0] as int) + seq![ev.reward_item_rates[0]]
                + le4(ev.reward_item_ids[1] as int) + le4(ev.reward_item_counts[1] as int) + seq![ev.reward_item_rates[1]]
        } else {
            cr_reward_bytes(*ev)
        }));
        i = i + 1;
    }
}

fn write_cr_tail(pkt: &mut Packet, ev: &CollectionRaceEvent, nation: u8)
    requires
        ev.total_count * ev.rank_bug <= u32::MAX,
        utf8(ev.event_name@).len() <= u8::MAX,
    ensures
        final(pkt).opcode == old(pkt).opcode,
        final(pkt).data@ == old(pkt).data@ + cr_tail(*ev, nation),
{
    let shown = ((ev.total_count as u32 * ev.rank_bug) % 65536) as u16;
    let name = ev.event_name.as_str();
    assert(name.spec_bytes() == utf8(ev.event_name@));
    pkt.write_u16(shown);
    pkt.write_u16(ev.user_limit);
    pkt.write_u8(nation);
    pkt.write_sbyte_string(name);
    pkt.write_u8(ev.zone_id);
    assert(pkt.data@ =~= old(pkt).data@ + cr_tail(*ev, nation));
}

/// The notice that a race starts: each slot's monster and required kills,
/// the rewards, the race's length in seconds, then the shown finisher
/// count, the limit, the nation, the name and the zone.
pub fn build_start_packet(ev: &CollectionRaceEvent, duration_secs: u32, nation: u8) -> (r: Packet)
    requires
        ev.total_count * ev.rank_bug <= u32::MAX,
        utf8(ev.event_name@).len() <= u8::MAX,
    ensures
        r.opcode == EXT_HOOK_S2C,
        r.data@ == seq![EXT_SUB_COLLECTION_RACE, SUB_START] + le2(ev.proto_ids[0] as int) + le2(
            ev.kill_counts_req[0] as int,
        ) + le2(ev.proto_ids[1] as int) + le2(ev.kill_counts_req[1] as int) + le2(ev.proto_ids[2] as int)
            + le2(ev.kill_counts_req[2] as int) + cr_reward_bytes(*ev) + le4(duration_secs as int) + cr_tail(
            *ev,
            nation,
        ),
{
    let mut pkt = Packet::new(EXT_HOOK_S2C);
    pkt.write_u8(EXT_SUB_COLLECTION_RACE);
    pkt.write_u8(SUB_START);
    pkt.write_u16(ev.proto_ids[0]);
    pkt.write_u16(ev.kill_counts_req[0]);
    pkt.write_u16(ev.proto_ids[1]);
    pkt.write_u16(ev.kill_counts_req[1]);
    pkt.write_u16(ev.proto_ids[2]);
    pkt.write_u16(ev.kill_counts_req[2]);
    write_cr_rewards(&mut pkt, ev);
    pkt.write_u32(duration_secs);
    write_cr_tail(&mut pkt, ev, nation);
    assert(pkt.data@ =~= seq![EXT_SUB_COLLECTION_RACE, SUB_START] + le2(ev.proto_ids[0] as int) + le2(
        ev.kill_counts_req[0] as int,
    ) + le2(ev.proto_ids[1] as int) + le2(ev.kill_counts_req[1] as int) + le2(ev.proto_ids[2] as int)
        + le2(ev.kill_counts_req[2] as int) + cr_reward_bytes(*ev) + le4(duration_secs as int) + cr_tail(
        *ev,
        nation,
    ));
    pkt
}

/// The notice for a player entering the game during a race: each slot's
/// monster, the kills the player's round requires and the player's kills,
/// the rewards, the seconds left, and the closing fields.
pub fn build_refresh_packet(
    ev: &CollectionRaceEvent,
    my_kill_counts: [u16; 3],
    user_status: u8,
    remaining_secs: u32,
    nation: u8,
) -> (r: Packet)
    requires
        ev.total_count * ev.rank_bug <= u32::MAX,
        utf8(ev.event_name@).len() <= u8::MAX,
    ensures
        r.opcode == EXT_HOOK_S2C,
        r.data@ == seq![EXT_SUB_COLLECTION_RACE, SUB_REFRESH] + le2(ev.proto_ids[0] as int) + le2(
            required_count(ev.kill_counts_req[0], user_status) as int,
        ) + le2(my_kill_counts[0] as int) + le2(ev.proto_ids[1] as int) + le2(
            required_count(ev.kill_counts_req[1], user_status) as int,
        ) + le2(my_kill_counts[1] as int) + le2(ev.proto_ids[2] as int) + le2(
            required_count(ev.kill_counts_req[2], user_status) as int,
        ) + le2(my_kill_counts[2] as int) + cr_reward_bytes(*ev) + le4(remaining_secs as int) + cr_tail(
            *ev,
            nation,
        ),
{
    let mut pkt = Packet::new(EXT_HOOK_S2C);
    pkt.write_u8(EXT_SUB_COLLECTION_RACE);
    pkt.write_u8(SUB_REFRESH);
    pkt.write_u16(ev.proto_ids[0]);
    pkt.write_u16(required_kills(ev.kill_counts_req[0], user_status));
    pkt.write_u16(my_kill_counts[0]);
    pkt.write_u16(ev.proto_ids[1]);
    pkt.write_u16(required_kills(ev.kill_counts_req[1], user_status));
    pkt.write_u16(my_kill_counts[1]);
    pkt.write_u16(ev.proto_ids[2]);
    pkt.write_u16(required_kills(ev.kill_counts_req[2], user_status));
    pkt.write_u16(my_kill_counts[2]);
    write_cr_rewards(&mut pkt, ev);
    pkt.write_u32(remaining_secs);
    write_cr_tail(&mut pkt, ev, nation);
    assert(pkt.data@ =~= seq![EXT_SUB_COLLECTION_RACE, SUB_REFRESH] + le2(ev.proto_ids[0] as int) + le2(
        required_count(ev.kill_counts_req[0], user_status) as int,
    ) + le2(my_kill_counts[0] as int) + le2(ev.proto_ids[1] as int) + le2(
        required_count(ev.kill_counts_req[1], user_status) as int,
    ) + le2(my_kill_counts[1] as int) + le2(ev.proto_ids[2] as int) + le2(
        required_count(ev.kill_counts_req[2], user_status) as int,
    ) + le2(my_kill_counts[2] as int) + cr_reward_bytes(*ev) + le4(remaining_secs as int) + cr_tail(
        *ev,
        nation,
    ));
    pkt
}

/// The killer's progress after a counted kill: the monster and the kills
/// of each slot.
pub fn build_kill_update_packet(proto_id: u16, kill_counts: [u16; 3]) -> (r: Packet)
    ensures
        r.opcode == EXT_HOOK_S2C,
        r.data@ == seq![EXT_SUB_COLLECTION_RACE, SUB_KILL_UPDATE] + le2(proto_id as int) + le2(
            kill_counts[0] as int,
        ) + le2(kill_counts[1] as int) + le2(kill_counts[2] as int),
{
    let mut pkt = Packet::new(EXT_HOOK_S2C);
    pkt.write_u8(EXT_SUB_COLLECTION_RACE);
    pkt.write_u8(SUB_KILL_UPDATE);
    pkt.write_u16(proto_id);
    pkt.write_u16(kill_counts[0]);
    pkt.write_u16(kill_counts[1]);
    pkt.write_u16(kill_counts[2]);
    assert(pkt.data@ =~= seq![EXT_SUB_COLLECTION_RACE, SUB_KILL_UPDATE] + le2(proto_id as int) + le2(
        kill_counts[0] as int,
    ) + le2(kill_counts[1] as int) + le2(kill_counts[2] as int));
    pkt
}

/// The shown finisher count and the limit, after a player finished.
pub fn build_count_update_packet(total_count: u16, rank_bug: u32, user_limit: u16) -> (r: Packet)
    requires
        total_count * rank_bug <= u32::MAX,
    ensures
        r.opcode == EXT_HOOK_S2C,
        r.data@ == seq![EXT_SUB_COLLECTION_RACE, SUB_COUNT_UPDATE] + le2(shown_total(total_count, rank_bug))
            + le2(user_limit as int),
{
    let mut pkt = Packet::new(EXT_HOOK_S2C);
    pkt.write_u8(EXT_SUB_COLLECTION_RACE);
    pkt.write_u8(SUB_COUNT_UPDATE);
    pkt.write_u16(((total_count as u32 * rank_bug) % 65536) as u16);
    pkt.write_u16(user_limit);
    assert(pkt.data@ =~= seq![EXT_SUB_COLLECTION_RACE, SUB_COUNT_UPDATE] + le2(shown_total(total_count, rank_bug))
        + le2(user_limit as int));
    pkt
}

/// The notice that the race ended for the player.
pub fn build_end_packet() -> (r: Packet)
    ensures
        r.opcode == EXT_HOOK_S2C,
        r.data@ == seq![EXT_SUB_COLLECTION_RACE, SUB_END],
{
    let mut pkt = Packet::new(EXT_HOOK_S2C);
    pkt.write_u8(EXT_SUB_COLLECTION_RACE);
    pkt.write_u8(SUB_END);
    assert(pkt.data@ =~= seq![EXT_SUB_COLLECTION_RACE, SUB_END]);
    pkt
}

/// The notice that hides the race from a player.
pub fn build_hide_packet() -> (r: Packet)
    ensures
        r.opcode == EXT_HOOK_S2C,
        r.data@ == seq![EXT_SUB_COLLECTION_RACE, SUB_HIDE],
{
    let mut pkt = Packet::new(EXT_HOOK_S2C);
    pkt.write_u8(EXT_SUB_COLLECTION_RACE);
    pkt.write_u8(SUB_HIDE);
    assert(pkt.data@ =~= seq![EXT_SUB_COLLECTION_RACE, SUB_HIDE]);
    pkt
}

/// The finisher's rewards: each slot's item and count, then four zero
/// 32-bit fields.
pub fn build_quest_reward_packet(item_ids: [u32; 3], item_counts: [u32; 3]) -> (r: Packet)
    ensures
        r.opcode == WIZ_QUEST,
        r.data@ == seq![QUEST_SUB_CR_REWARD] + le4(item_ids[0] as int) + le4(item_counts[0] as int) + le4(
            item_ids[1] as int,
        ) + le4(item_counts[1] as int) + le4(item_ids[2] as int) + le4(item_counts[2] as int) + le4(0)
            + le4(0) + le4(0) + le4(0),
{
    let mut pkt = Packet::new(WIZ_QUEST);
    pkt.write_u8(QUEST_SUB_CR_REWARD);
    pkt.write_u32(item_ids[0]);
    pkt.write_u32(item_counts[0]);
    pkt.write_u32(item_ids[1]);
    pkt.write_u32(item_counts[1]);
    pkt.write_u32(item_ids[2]);
    pkt.write_u32(item_counts[2]);
    pkt.write_u32(0);
    pkt.write_u32(0);
    pkt.write_u32(0);
    pkt.write_u32(0);
    assert(pkt.data@ =~= seq![QUEST_SUB_CR_REWARD] + le4(item_ids[0] as int) + le4(item_counts[0] as int) + le4(
        item_ids[1] as int,
    ) + le4(item_counts[1] as int) + le4(item_ids[2] as int) + le4(item_counts[2] as int) + le4(0) + le4(0)
        + le4(0) + le4(0));
    pkt
}

} // verus!
