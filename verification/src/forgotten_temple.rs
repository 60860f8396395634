//! Forgotten Temple (monster challenge) event.
//!
//! 1. **Start**: the event opens its join phase.
//! 2. **Summon phase**: `summon_time` seconds after the start, summoning begins
//!    and joining closes.
//! 3. **Waves**: each stage spawns once its time offset has passed.
//! 4. **Last summon**: when no stage is left, summoning ends.
//! 5. **Victory**: once every monster is dead after the last summon, rewards
//!    are handed out and a waiting phase begins.
//! 6. **Finish**: after the waiting phase, or at the hard time limit, players
//!    are sent home and the state is reset.
//!
//! Special monsters cast a skill on death:
//!
//! | Proto ID | Skill ID | Name               |
//! |----------|----------|--------------------|
//! | 9816     | 492059   | Forgotten Princess |
//! | 9817     | 492060   | Corrupted Priest   |
//! | 9818     | 492061   | Demon Sword Sultan |
//! | 9819     | 492060   | Scorpion King      |
//! | 9820     | 492062   | Shaitan            |

use std::collections::HashMap;
use std::string::String;
use vstd::prelude::*;

use crate::seq_util::{
    first_match, lemma_first_match_found, lemma_first_match_skip, lemma_sum_of_prefix_le,
    lemma_sum_of_push, sum_of,
};

pub use crate::world::ZONE_FORGOTTEN_TEMPLE;

verus! {

/// The event's `local_id` in the event reward table.
pub const FT_REWARD_LOCAL_ID: i16 = 13;

/// Runtime state of the Forgotten Temple event.
pub struct ForgettenTempleState {
    /// Whether the event is currently active.
    pub is_active: bool,
    /// Whether the join phase is open (players can enter the zone).
    pub is_join: bool,
    /// Whether monster summoning has started.
    pub is_summon: bool,
    /// Whether the summon phase has been entered.
    pub is_summon_check: bool,
    /// Whether all stages have been spawned (no more summons).
    pub is_last_summon: bool,
    /// Whether the event is won (rewards handed out, waiting to kick).
    pub is_finished: bool,
    /// Whether the post-victory waiting phase runs.
    pub is_waiting: bool,
    /// Current stage number (1-based).
    pub stage: u16,
    /// Event type (matches the stage table's event type, typically 1).
    pub event_type: u16,
    /// Minimum player level.
    pub min_level: u16,
    /// Maximum player level.
    pub max_level: u16,
    /// Unix time when the event started.
    pub start_time: u64,
    /// Unix time of the hard time limit.
    pub finish_time: u64,
    /// Unix time when the waiting phase ends.
    pub waiting_time: u64,
    /// Unix time of the last summon wave.
    pub last_summon_time: u64,
    /// Number of event monsters alive.
    pub monster_count: u32,
}

/// The inactive state that a new or reset event has.
pub open spec fn ft_initial_state() -> ForgettenTempleState {
    ForgettenTempleState {
        is_active: false,
        is_join: false,
        is_summon: false,
        is_summon_check: false,
        is_last_summon: false,
        is_finished: false,
        is_waiting: false,
        stage: 1,
        event_type: 0,
        min_level: 0,
        max_level: 0,
        start_time: 0,
        finish_time: 0,
        waiting_time: 0,
        last_summon_time: 0,
        monster_count: 0,
    }
}

impl ForgettenTempleState {
    /// Create a new inactive event state.
    pub fn new() -> (r: Self)
        ensures
            r == ft_initial_state(),
    {
        ForgettenTempleState {
            is_active: false,
            is_join: false,
            is_summon: false,
            is_summon_check: false,
            is_last_summon: false,
            is_finished: false,
            is_waiting: false,
            stage: 1,
            event_type: 0,
            min_level: 0,
            max_level: 0,
            start_time: 0,
            finish_time: 0,
            waiting_time: 0,
            last_summon_time: 0,
            monster_count: 0,
        }
    }

    /// Reset the event state (on event end or manual close).
    pub fn reset(&mut self)
        ensures
            *final(self) == ft_initial_state(),
    {
        *self = ForgettenTempleState::new();
    }
}

impl Default for ForgettenTempleState {
    fn default() -> (r: Self)
        ensures
            r == ft_initial_state(),
    {
        ForgettenTempleState::new()
    }
}

/// Event timer options.
#[derive(Debug, Clone)]
pub struct FtTimerOptions {
    /// Total playing time in minutes.
    pub playing_time: u16,
    /// Seconds after the event start before summoning begins.
    pub summon_time: u16,
    /// Minimum spawn interval in seconds (not used by the timer).
    pub spawn_min_time: u16,
    /// Seconds to wait after victory before kicking players.
    pub waiting_time: u16,
    /// Minimum player level.
    pub min_level: u8,
    /// Maximum player level.
    pub max_level: u8,
}

impl Default for FtTimerOptions {
    fn default() -> (r: Self)
        ensures
            r.playing_time == 0 && r.summon_time == 0 && r.spawn_min_time == 0 && r.waiting_time
                == 0 && r.min_level == 0 && r.max_level == 0,
    {
        FtTimerOptions {
            playing_time: 0,
            summon_time: 0,
            spawn_min_time: 0,
            waiting_time: 0,
            min_level: 0,
            max_level: 0,
        }
    }
}

/// Stage table row.
#[derive(Debug, Clone)]
pub struct FtStageEntry {
    /// Primary key index.
    pub n_index: i32,
    /// Event type.
    pub event_type: i16,
    /// Stage number.
    pub stage: i16,
    /// Time offset in seconds from the summon start.
    pub time_offset: i16,
}

/// Summon table row.
#[derive(Debug, Clone)]
pub struct FtSummonEntry {
    /// Row index.
    pub b_index: i32,
    /// Event type.
    pub event_type: i16,
    /// Stage number.
    pub stage: i16,
    /// NPC template ID.
    pub sid_id: i16,
    /// Spawn count.
    pub sid_count: i16,
    /// X position.
    pub pos_x: i16,
    /// Z position.
    pub pos_z: i16,
    /// Spawn range.
    pub spawn_range: i16,
    /// Monster name.
    pub summon_name: String,
}

/// Whether a stage row belongs to stage `stage` of event type `event_type`.
pub open spec fn stage_row_is(event_type: u16, stage: u16) -> spec_fn(FtStageEntry) -> bool {
    |s: FtStageEntry| s.event_type == event_type as i16 && s.stage == stage as i16
}

/// Whether a summon row belongs to stage `stage` of event type `event_type`.
pub open spec fn summon_row_is(event_type: u16, stage: u16) -> spec_fn(FtSummonEntry) -> bool {
    |s: FtSummonEntry| s.event_type == event_type as i16 && s.stage == stage as i16
}

/// Retrieve the first stage row of the given event type and stage, or
/// `None` when there is none (which signals the end of the stages).
pub fn get_current_stage(stages: &[FtStageEntry], event_type: u16, current_stage: u16) -> (r: Option<
    &FtStageEntry,
>)
    ensures
        match r {
            None => first_match(stages@, stage_row_is(event_type, current_stage)) is None,
            Some(e) => first_match(stages@, stage_row_is(event_type, current_stage)) == Some(*e),
        },
{
    let et = event_type as i16;
    let st = current_stage as i16;
    let ghost p = stage_row_is(event_type, current_stage);
    let mut i: usize = 0;
    assert(stages@.skip(0) =~= stages@);
    while i < stages.len()
        invariant
            i <= stages@.len(),
            et == event_type as i16,
            st == current_stage as i16,
            p == stage_row_is(event_type, current_stage),
            first_match(stages@, p) == first_match(stages@.skip(i as int), p),
        decreases stages@.len() - i,
    {
        proof {
            lemma_first_match_skip(stages@, p, i as int);
        }
        if stages[i].event_type == et && stages[i].stage == st {
            return Some(&stages[i]);
        }
        i = i + 1;
    }
    assert(stages@.skip(i as int).len() == 0);
    None
}

/// The summon rows of a stage, in table order.
pub open spec fn stage_summons(summons: Seq<FtSummonEntry>, event_type: u16, stage: u16) -> Seq<
    FtSummonEntry,
> {
    summons.filter(summon_row_is(event_type, stage))
}

/// Load the spawn list of a stage: all summon rows of the given event type and stage.
pub fn load_stage_spawns(summons: &[FtSummonEntry], event_type: u16, current_stage: u16) -> (r: Vec<
    &FtSummonEntry,
>)
    ensures
        r@.map_values(|s: &FtSummonEntry| *s) == stage_summons(summons@, event_type, current_stage),
{
    let et = event_type as i16;
    let st = current_stage as i16;
    let mut out: Vec<&FtSummonEntry> = Vec::new();
    let mut i: usize = 0;
    while i < summons.len()
        invariant
            i <= summons@.len(),
            et == event_type as i16,
            st == current_stage as i16,
            out@.map_values(|s: &FtSummonEntry| *s) == stage_summons(
                summons@.take(i as int),
                event_type,
                current_stage,
            ),
        decreases summons@.len() - i,
    {
        proof {
            summons@.take(i as int).lemma_filter_push(
                summons@[i as int],
                summon_row_is(event_type, current_stage),
            );
            assert(summons@.take(i as int + 1) == summons@.take(i as int).push(summons@[i as int]));
        }
        if summons[i].event_type == et && summons[i].stage == st {
            out.push(&summons[i]);
        }
        i = i + 1;
    }
    assert(summons@.take(summons@.len() as int) == summons@);
    out
}

/// The monster count that a summon row adds to its stage's total: its
/// count, taken as a `u32`, when it belongs to the stage, else nothing.
pub open spec fn summon_count_in(event_type: u16, stage: u16) -> spec_fn(FtSummonEntry) -> int {
    |s: FtSummonEntry|
        if summon_row_is(event_type, stage)(s) {
            (s.sid_count as u32) as int
        } else {
            0
        }
}

/// Total number of monsters spawned for a stage.
pub open spec fn stage_monster_total(summons: Seq<FtSummonEntry>, event_type: u16, stage: u16) -> int {
    sum_of(summons, summon_count_in(event_type, stage))
}

/// Count the monsters that a stage spawns: the sum of the counts of its summon rows.
pub fn count_stage_monsters(summons: &[FtSummonEntry], event_type: u16, current_stage: u16) -> (r: u32)
    requires
        stage_monster_total(summons@, event_type, current_stage) <= u32::MAX,
    ensures
        r == stage_monster_total(summons@, event_type, current_stage),
{
    let et = event_type as i16;
    let st = current_stage as i16;
    let ghost f = summon_count_in(event_type, current_stage);
    let mut total: u32 = 0;
    let mut i: usize = 0;
    while i < summons.len()
        invariant
            i <= summons@.len(),
            et == event_type as i16,
            st == current_stage as i16,
            f == summon_count_in(event_type, current_stage),
            sum_of(summons@, f) <= u32::MAX,
            total == sum_of(summons@.take(i as int), f),
        decreases summons@.len() - i,
    {
        proof {
            assert(summons@.take(i as int + 1) == summons@.take(i as int).push(summons@[i as int]));
            lemma_sum_of_push(summons@.take(i as int), summons@[i as int], f);
            lemma_sum_of_prefix_le(summons@, f, i as int + 1);
        }
        if summons[i].event_type == et && summons[i].stage == st {
            total = total + summons[i].sid_count as u32;
        }
        i = i + 1;
    }
    assert(summons@.take(summons@.len() as int) == summons@);
    total
}

/// The skill that a special monster casts on death.
pub open spec fn spec_death_skill(proto_id: u16) -> Option<u32> {
    if proto_id == 9816 {
        Some(492059)
    } else if proto_id == 9817 {
        Some(492060)
    } else if proto_id == 9818 {
        Some(492061)
    } else if proto_id == 9819 {
        Some(492060)
    } else if proto_id == 9820 {
        Some(492062)
    } else {
        None
    }
}

/// The skill ID that a special monster casts on death, or `None` for other monsters.
pub fn get_death_skill(proto_id: u16) -> (r: Option<u32>)
    ensures
        r == spec_death_skill(proto_id),
{
    match proto_id {
        9816 => Some(492059),
        9817 => Some(492060),
        9818 => Some(492061),
        9819 => Some(492060),
        9820 => Some(492062),
        _ => None,
    }
}

/// Process the death of a monster. While the event is active and the death
/// is in the event zone, the alive count goes down by one (not below zero)
/// and the monster's death skill is returned; otherwise nothing changes.
pub fn on_monster_dead(state: &mut ForgettenTempleState, proto_id: u16, zone_id: u16) -> (r: Option<u32>)
    ensures
        !old(state).is_active || zone_id != ZONE_FORGOTTEN_TEMPLE ==> r is None && *final(state)
            == *old(state),
        old(state).is_active && zone_id == ZONE_FORGOTTEN_TEMPLE ==> r == spec_death_skill(proto_id)
            && *final(state) == (ForgettenTempleState {
            monster_count: if old(state).monster_count > 0 {
                (old(state).monster_count - 1) as u32
            } else {
                0
            },
            ..*old(state)
        }),
{
    if !state.is_active || zone_id != ZONE_FORGOTTEN_TEMPLE {
        return None;
    }
    if state.monster_count > 0 {
        state.monster_count = state.monster_count - 1;
    }
    get_death_skill(proto_id)
}

/// Result of one timer tick.
#[derive(Debug, PartialEq, Eq, Structural)]
pub enum FtTickResult {
    /// No action needed.
    Idle,
    /// The summon phase just started: announce it.
    SummonPhaseStarted,
    /// Spawn the wave of the given stage.
    SpawnStage(u16),
    /// All stages are exhausted: no more summons.
    LastSummonReached,
    /// All monsters dead after the last summon: hand out rewards.
    Victory,
    /// The event is over (time limit or waiting phase over): kick players.
    Finish,
}

/// Whether the timer tick of `st` stays within the range of its 64-bit
/// clock arithmetic on the path it takes.
pub open spec fn timer_tick_in_range(
    st: ForgettenTempleState,
    options: FtTimerOptions,
    stages: Seq<FtStageEntry>,
    now: u64,
) -> bool {
    st.is_active && !st.is_finished && !(st.finish_time > 0 && now > st.finish_time) ==> {
        &&& st.start_time + options.summon_time <= u64::MAX
        &&& (!st.is_summon_check && now > st.start_time + options.summon_time ==> now + 30
            <= u64::MAX)
        &&& (st.is_summon_check && st.is_summon && !st.is_last_summon) ==> (first_match(
            stages,
            stage_row_is(st.event_type, st.stage),
        ) matches Some(def) ==> st.start_time + (def.time_offset as u64) + options.summon_time
            <= u64::MAX)
        &&& (st.is_summon_check && !(st.is_summon && !st.is_last_summon) && st.is_last_summon
            && !st.is_summon && st.monster_count == 0) ==> now + options.waiting_time <= u64::MAX
    }
}

/// The event state and result of one timer tick at time `now`.
///
/// Inactive: nothing. Won and waiting: finish once the waiting time has
/// passed. Won: nothing. Past the hard time limit: finish. Before the summon
/// phase: enter it once `summon_time` seconds have passed since the start,
/// closing the join phase. During summoning: spawn the current stage once
/// its time offset has passed, or end summoning when the stage table has no
/// such stage. After the last summon with no monster alive: victory, and
/// the waiting phase begins.
pub open spec fn timer_tick_spec(
    st: ForgettenTempleState,
    options: FtTimerOptions,
    stages: Seq<FtStageEntry>,
    now: u64,
) -> (ForgettenTempleState, FtTickResult) {
    if !st.is_active {
        (st, FtTickResult::Idle)
    } else if st.is_finished && st.is_waiting {
        if now > st.waiting_time {
            (st, FtTickResult::Finish)
        } else {
            (st, FtTickResult::Idle)
        }
    } else if st.is_finished {
        (st, FtTickResult::Idle)
    } else if st.finish_time > 0 && now > st.finish_time {
        (st, FtTickResult::Finish)
    } else if !st.is_summon_check {
        if now > st.start_time + options.summon_time {
            (
                ForgettenTempleState {
                    is_summon_check: true,
                    stage: 1,
                    last_summon_time: (now + 30) as u64,
                    is_join: false,
                    is_summon: true,
                    ..st
                },
                FtTickResult::SummonPhaseStarted,
            )
        } else {
            (st, FtTickResult::Idle)
        }
    } else if st.is_summon && !st.is_last_summon {
        match first_match(stages, stage_row_is(st.event_type, st.stage)) {
            Some(def) => {
                if now > st.start_time + (def.time_offset as u64) + options.summon_time {
                    (
                        ForgettenTempleState {
                            stage: if st.stage == u16::MAX { 0 } else { (st.stage + 1) as u16 },
                            last_summon_time: now,
                            ..st
                        },
                        FtTickResult::SpawnStage(st.stage),
                    )
                } else {
                    (st, FtTickResult::Idle)
                }
            },
            None => (
                ForgettenTempleState { is_last_summon: true, is_summon: false, ..st },
                FtTickResult::LastSummonReached,
            ),
        }
    } else if st.is_last_summon && !st.is_summon && st.monster_count == 0 {
        (
            ForgettenTempleState {
                waiting_time: (now + options.waiting_time) as u64,
                is_waiting: true,
                is_finished: true,
                ..st
            },
            FtTickResult::Victory,
        )
    } else {
        (st, FtTickResult::Idle)
    }
}

/// Whether some stage row belongs to stage `stage` of event type `event_type`.
fn any_stage_matches(stages: &[FtStageEntry], event_type: u16, stage: u16) -> (r: bool)
    ensures
        r == exists|i: int| 0 <= i < stages@.len() && stage_row_is(event_type, stage)(
            #[trigger] stages@[i],
        ),
{
    let et = event_type as i16;
    let st = stage as i16;
    let mut i: usize = 0;
    while i < stages.len()
        invariant
            i <= stages@.len(),
            et == event_type as i16,
            st == stage as i16,
            forall|j: int| 0 <= j < i ==> !stage_row_is(event_type, stage)(#[trigger] stages@[j]),
        decreases stages@.len() - i,
    {
        if stages[i].event_type == et && stages[i].stage == st {
            assert(stage_row_is(event_type, stage)(stages@[i as int]));
            return true;
        }
        i = i + 1;
    }
    false
}

/// Run one tick of the event timer (called every second while the event runs).
pub fn timer_tick(
    state: &mut ForgettenTempleState,
    options: &FtTimerOptions,
    stages: &[FtStageEntry],
    now: u64,
) -> (r: FtTickResult)
    requires
        timer_tick_in_range(*old(state), *options, stages@, now),
    ensures
        (*final(state), r) == timer_tick_spec(*old(state), *options, stages@, now),
{
    if !state.is_active {
        return FtTickResult::Idle;
    }
    if state.is_finished && state.is_waiting {
        if now > state.waiting_time {
            return FtTickResult::Finish;
        }
        return FtTickResult::Idle;
    }
    if state.is_finished {
        return FtTickResult::Idle;
    }
    let ft = state.finish_time;
    if ft > 0 && now > ft {
        return FtTickResult::Finish;
    }
    let st = state.start_time;
    if !state.is_summon_check {
        let summon_start = st + options.summon_time as u64;
        if now > summon_start {
            state.is_summon_check = true;
            state.stage = 1;
            state.last_summon_time = now + 30;
            state.is_join = false;
            state.is_summon = true;
            return FtTickResult::SummonPhaseStarted;
        }
        return FtTickResult::Idle;
    }
    if state.is_summon && !state.is_last_summon {
        let current_stage = state.stage;
        let et = state.event_type;
        match get_current_stage(stages, et, current_stage) {
            Some(stage_def) => {
                let trigger_time = st + stage_def.time_offset as u64 + options.summon_time as u64;
                if now > trigger_time {
                    proof {
                        lemma_first_match_found(stages@, stage_row_is(et, current_stage));
                    }
                    let spawns_exist = any_stage_matches(stages, et, current_stage);
                    if spawns_exist {
                        state.stage = current_stage.wrapping_add(1);
                        state.last_summon_time = now;
                        return FtTickResult::SpawnStage(current_stage);
                    }
                    state.is_last_summon = true;
                    state.is_summon = false;
                    return FtTickResult::LastSummonReached;
                }
            },
            None => {
                state.is_last_summon = true;
                state.is_summon = false;
                return FtTickResult::LastSummonReached;
            },
        }
    }
    if state.is_last_summon && !state.is_summon && state.monster_count == 0 {
        state.waiting_time = now + options.waiting_time as u64;
        state.is_waiting = true;
        state.is_finished = true;
        return FtTickResult::Victory;
    }
    FtTickResult::Idle
}


/// The event state after a successful start at time `now`.
pub open spec fn ft_started_state(options: FtTimerOptions, event_type: u16, now: u64) -> ForgettenTempleState {
    ForgettenTempleState {
        is_active: true,
        is_join: true,
        min_level: options.min_level as u16,
        max_level: options.max_level as u16,
        stage: 1,
        event_type: event_type,
        start_time: now,
        finish_time: (now + options.playing_time * 60) as u64,
        ..ft_initial_state()
    }
}

/// Start the event at time `now`.
///
/// Refused (returns `false`, state unchanged) when the event is already
/// active or when the playing time or summon time is zero. Otherwise the
/// state is reset, the join phase opens with the option's level range, and
/// the hard time limit is `playing_time` minutes after `now`.
pub fn start_event(
    state: &mut ForgettenTempleState,
    options: &FtTimerOptions,
    event_type: u16,
    now: u64,
) -> (r: bool)
    requires
        !old(state).is_active && options.playing_time != 0 && options.summon_time != 0 ==> now
            + options.playing_time * 60 <= u64::MAX,
    ensures
        r == (!old(state).is_active && options.playing_time != 0 && options.summon_time != 0),
        r ==> *final(state) == ft_started_state(*options, event_type, now),
        !r ==> *final(state) == *old(state),
{
    if state.is_active {
        return false;
    }
    if options.playing_time == 0 || options.summon_time == 0 {
        return false;
    }
    state.reset();
    state.is_active = true;
    state.is_join = true;
    state.min_level = options.min_level as u16;
    state.max_level = options.max_level as u16;
    state.stage = 1;
    state.event_type = event_type;
    state.start_time = now;
    state.finish_time = now + (options.playing_time as u64 * 60);
    true
}

/// Stop the event and reset its state.
pub fn finish_event(state: &mut ForgettenTempleState)
    ensures
        *final(state) == ft_initial_state(),
{
    state.is_active = false;
    state.reset();
}

/// Whether a player of level `player_level` may join: the event must be
/// active, in its join phase, and the level within the event's range.
pub fn can_player_join(state: &ForgettenTempleState, player_level: u16) -> (r: bool)
    ensures
        r == (state.is_active && state.is_join && state.min_level <= player_level
            <= state.max_level),
{
    if !state.is_active || !state.is_join {
        return false;
    }
    let min = state.min_level;
    let max = state.max_level;
    player_level >= min && player_level <= max
}

/// Event reward row.
#[derive(Debug, Clone)]
pub struct EventRewardEntry {
    /// Event identifier (13 for this event).
    pub local_id: i16,
    /// Whether this reward is enabled.
    pub status: bool,
    /// First item ID (0 when unused).
    pub itemid1: i32,
    /// First item count.
    pub itemcount1: i32,
    /// First item expiration.
    pub itemexpiration1: i32,
    /// Second item ID (0 when unused).
    pub itemid2: i32,
    /// Second item count.
    pub itemcount2: i32,
    /// Second item expiration.
    pub itemexpiration2: i32,
    /// Third item ID (0 when unused).
    pub itemid3: i32,
    /// Third item count.
    pub itemcount3: i32,
    /// Third item expiration.
    pub itemexpiration3: i32,
    /// Experience reward.
    pub experience: i32,
    /// Loyalty reward.
    pub loyalty: i32,
    /// Cash reward.
    pub cash: i32,
    /// Noah (gold) reward.
    pub noah: i32,
}

/// The one-element sequence of an item slot when its item ID is set, else empty.
pub open spec fn reward_slot(id: i32, count: i32, expiration: i32) -> Seq<(i32, i32, i32)> {
    if id != 0 {
        seq![(id, count, expiration)]
    } else {
        Seq::empty()
    }
}

/// The (item_id, count, expiration) triples of a reward's set item slots, in slot order.
pub open spec fn reward_items(r: EventRewardEntry) -> Seq<(i32, i32, i32)> {
    reward_slot(r.itemid1, r.itemcount1, r.itemexpiration1) + reward_slot(
        r.itemid2,
        r.itemcount2,
        r.itemexpiration2,
    ) + reward_slot(r.itemid3, r.itemcount3, r.itemexpiration3)
}

/// The items of a reward row are exactly its slots with an item, in slot
/// order: every item listed has a non-zero ID, and one is listed for each
/// slot whose ID is not zero.
pub proof fn lemma_reward_items_are_set_slots(r: EventRewardEntry)
    ensures
        forall|i: int| 0 <= i < reward_items(r).len() ==> (#[trigger] reward_items(r)[i]).0 != 0,
        reward_items(r).len() == (if r.itemid1 != 0 { 1int } else { 0int }) + (if r.itemid2 != 0 {
            1int
        } else {
            0int
        }) + (if r.itemid3 != 0 {
            1int
        } else {
            0int
        }),
        r.itemid1 != 0 ==> reward_items(r)[0] == (r.itemid1, r.itemcount1, r.itemexpiration1),
        r.itemid3 != 0 ==> reward_items(r).last() == (r.itemid3, r.itemcount3, r.itemexpiration3),
{
}

/// Collect the (item_id, count, expiration) triples of a reward row's
/// item slots whose item ID is not zero.
pub fn collect_reward_items(reward: &EventRewardEntry) -> (r: Vec<(i32, i32, i32)>)
    ensures
        r@ == reward_items(*reward),
{
    let mut items: Vec<(i32, i32, i32)> = Vec::new();
    if reward.itemid1 != 0 {
        items.push((reward.itemid1, reward.itemcount1, reward.itemexpiration1));
    }
    if reward.itemid2 != 0 {
        items.push((reward.itemid2, reward.itemcount2, reward.itemexpiration2));
    }
    if reward.itemid3 != 0 {
        items.push((reward.itemid3, reward.itemcount3, reward.itemexpiration3));
    }
    assert(items@ =~= reward_items(*reward));
    items
}

/// Whether a reward row is an enabled reward of this event.
pub open spec fn is_ft_reward(r: EventRewardEntry) -> bool {
    r.local_id == FT_REWARD_LOCAL_ID && r.status
}

/// Get this event's enabled rewards from the full reward table, in table order.
pub fn get_ft_rewards(rewards: &[EventRewardEntry]) -> (r: Vec<&EventRewardEntry>)
    ensures
        r@.map_values(|e: &EventRewardEntry| *e) == rewards@.filter(
            |e: EventRewardEntry| is_ft_reward(e),
        ),
{
    let mut out: Vec<&EventRewardEntry> = Vec::new();
    let mut i: usize = 0;
    while i < rewards.len()
        invariant
            i <= rewards@.len(),
            out@.map_values(|e: &EventRewardEntry| *e) == rewards@.take(i as int).filter(
                |e: EventRewardEntry| is_ft_reward(e),
            ),
        decreases rewards@.len() - i,
    {
        proof {
            rewards@.take(i as int).lemma_filter_push(
                rewards@[i as int],
                |e: EventRewardEntry| is_ft_reward(e),
            );
            assert(rewards@.take(i as int + 1) == rewards@.take(i as int).push(rewards@[i as int]));
        }
        if rewards[i].local_id == FT_REWARD_LOCAL_ID && rewards[i].status {
            out.push(&rewards[i]);
        }
        i = i + 1;
    }
    assert(rewards@.take(rewards@.len() as int) == rewards@);
    out
}

/// The lookup key of (event_type, stage): the two values, each shifted
/// into 0..65536, packed into one 32-bit number.
pub open spec fn spec_stage_key(event_type: i16, stage: i16) -> u32 {
    ((event_type + 32768) * 65536 + (stage + 32768)) as u32
}

/// Compute the lookup key of (event_type, stage) in a stage map.
pub fn stage_key(event_type: i16, stage: i16) -> (r: u32)
    ensures
        r == spec_stage_key(event_type, stage),
{
    let hi = (event_type as i32 + 32768) as u32;
    let lo = (stage as i32 + 32768) as u32;
    assert(hi * 65536 + lo <= u32::MAX) by (nonlinear_arith)
        requires
            hi <= 65535,
            lo <= 65535,
    ;
    hi * 65536 + lo
}

/// Distinct (event_type, stage) pairs have distinct keys.
pub proof fn lemma_stage_key_injective(e1: i16, s1: i16, e2: i16, s2: i16)
    requires
        spec_stage_key(e1, s1) == spec_stage_key(e2, s2),
    ensures
        e1 == e2 && s1 == s2,
{
    let a1 = e1 + 32768;
    let b1 = s1 + 32768;
    let a2 = e2 + 32768;
    let b2 = s2 + 32768;
    assert(a1 * 65536 + b1 <= u32::MAX && a2 * 65536 + b2 <= u32::MAX) by (nonlinear_arith)
        requires
            0 <= a1 <= 65535,
            0 <= b1 <= 65535,
            0 <= a2 <= 65535,
            0 <= b2 <= 65535,
    ;
    assert(a1 == a2 && b1 == b2) by (nonlinear_arith)
        requires
            0 <= a1 <= 65535,
            0 <= b1 <= 65535,
            0 <= a2 <= 65535,
            0 <= b2 <= 65535,
            a1 * 65536 + b1 == a2 * 65536 + b2,
    ;
}

/// The key of a stage row.
pub open spec fn row_key(s: FtStageEntry) -> u32 {
    spec_stage_key(s.event_type, s.stage)
}

/// Whether a stage row has key `k`.
pub open spec fn row_has_key(k: u32) -> spec_fn(FtStageEntry) -> bool {
    |s: FtStageEntry| row_key(s) == k
}

/// Build a lookup of the stage rows by `stage_key(event_type, stage)`;
/// where several rows share a key, the first one is kept.
pub fn build_stage_map(stages: &[FtStageEntry]) -> (r: HashMap<u32, &FtStageEntry>)
    ensures
        forall|k: u32| #[trigger]
            r@.contains_key(k) <==> exists|i: int|
                0 <= i < stages@.len() && row_key(#[trigger] stages@[i]) == k,
        forall|k: u32| #[trigger]
            r@.contains_key(k) ==> first_match(stages@, row_has_key(k)) == Some(*r@[k]),
{
    broadcast use vstd::std_specs::hash::group_hash_axioms;

    let mut map: HashMap<u32, &FtStageEntry> = HashMap::new();
    let mut i: usize = 0;
    while i < stages.len()
        invariant
            i <= stages@.len(),
            forall|k: u32| #[trigger]
                map@.contains_key(k) <==> exists|j: int|
                    0 <= j < i && row_key(#[trigger] stages@[j]) == k,
            forall|k: u32| #[trigger]
                map@.contains_key(k) ==> first_match(stages@, row_has_key(k)) == Some(*map@[k]),
        decreases stages@.len() - i,
    {
        let k = stage_key(stages[i].event_type, stages[i].stage);
        if !map.contains_key(&k) {
            proof {
                assert forall|j: int| 0 <= j < i implies !row_has_key(k)(#[trigger] stages@[j]) by {
                    if row_key(stages@[j]) == k {
                        assert(map@.contains_key(k));
                    }
                }
                crate::seq_util::lemma_first_match_index(stages@, row_has_key(k), i as int);
            }
            map.insert(k, &stages[i]);
        }
        i = i + 1;
    }
    map
}


/// After a successful start, exactly the players whose level lies in the
/// option's level range can join.
pub proof fn lemma_start_then_join(options: FtTimerOptions, event_type: u16, now: u64, level: u16)
    ensures
        ({
            let st = ft_started_state(options, event_type, now);
            st.is_active && st.is_join && (st.min_level <= level <= st.max_level <==> options.min_level
                <= level <= options.max_level)
        }),
{
}

/// A reset (or never started) event does nothing on a timer tick and lets nobody join.
pub proof fn lemma_initial_state_is_idle(options: FtTimerOptions, stages: Seq<FtStageEntry>, now: u64)
    ensures
        timer_tick_spec(ft_initial_state(), options, stages, now) == (
            ft_initial_state(),
            FtTickResult::Idle,
        ),
        !(ft_initial_state().is_active && ft_initial_state().is_join),
{
}

/// The timer spawns stages one at a time in increasing order: a spawn
/// reports the state's current stage and moves the state to the next one.
pub proof fn lemma_spawn_advances_stage(
    st: ForgettenTempleState,
    options: FtTimerOptions,
    stages: Seq<FtStageEntry>,
    now: u64,
)
    ensures
        ({
            let (after, res) = timer_tick_spec(st, options, stages, now);
            res is SpawnStage ==> res->0 == st.stage && st.stage < u16::MAX ==> after.stage
                == st.stage + 1
        }),
{
}

/// Victory is declared only after the last summon, with no monster alive,
/// and it starts the waiting phase.
pub proof fn lemma_victory_requires_cleared_temple(
    st: ForgettenTempleState,
    options: FtTimerOptions,
    stages: Seq<FtStageEntry>,
    now: u64,
)
    ensures
        ({
            let (after, res) = timer_tick_spec(st, options, stages, now);
            res == FtTickResult::Victory ==> st.is_active && st.is_last_summon && !st.is_summon
                && st.monster_count == 0 && after.is_finished && after.is_waiting
        }),
{
}

/// Once the event is won, the timer changes nothing: it is idle until the
/// waiting time has passed, then it reports the finish.
pub proof fn lemma_won_event_only_waits(
    st: ForgettenTempleState,
    options: FtTimerOptions,
    stages: Seq<FtStageEntry>,
    now: u64,
)
    requires
        st.is_active,
        st.is_finished,
        st.is_waiting,
    ensures
        timer_tick_spec(st, options, stages, now) == (st, if now > st.waiting_time {
            FtTickResult::Finish
        } else {
            FtTickResult::Idle
        }),
{
}

} // verus!
