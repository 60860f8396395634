//! Dungeon Defence (Full Moon Rift) instance rules.
//!
//! A party of 2 or more enters a room whose difficulty follows the party
//! size. The room runs a one-second timer: an initial countdown, then one
//! monster wave per stage. When every monster of a stage is dead the room
//! advances to the next stage of its difficulty; after the final stage a
//! finish countdown kicks everyone out.
//!
//! | Difficulty | Party size | Stage IDs |
//! |------------|------------|-----------|
//! | Easy       | 2-3        | 1-5       |
//! | Normal     | 4-7        | 6-17      |
//! | Hard       | 8+         | 18-35     |

use std::collections::HashMap;
use std::string::String;
use vstd::prelude::*;

pub use crate::world::ZONE_DUNGEON_DEFENCE;

verus! {

/// Full Moon Rift Voucher item (required to enter).
pub const DUNGEON_DEFENCE_RIFT_ITEM: u32 = 914057000;

/// Monster Coin item (reward per kill).
pub const MONSTER_COIN_ITEM: u32 = 914058000;

/// Full Moon Rift Jewel item (reward per kill, 1 or 2 depending on stage).
pub const MONSTER_RIFT_JEWEL: u32 = 914069000;

/// Lunar Order Token item (boss-kill reward for the whole party).
pub const LUNAR_ORDER_TOKEN: u32 = 810977000;

/// Maximum number of rooms available.
pub const DD_MAX_ROOMS: u16 = 60;

/// Initial spawn timer (seconds before the first wave).
pub const DD_INITIAL_SPAWN_TIME: u32 = 60;

/// Room close timer (seconds before forced eviction).
pub const DD_ROOM_CLOSE_TIME: u32 = 7200;

/// Finish timer (seconds after the final stage before the kick).
pub const DD_FINISH_TIME: u16 = 30;

/// Event sub-opcode of the dungeon defence sign request.
pub const TEMPLE_EVENT_DUNGEON_SIGN: u8 = 58;

/// Event sub-opcode of the stage counter display.
pub const TEMPLE_EVENT_STAGE_COUNTER: u8 = 60;

/// Guardian NPC spawns of a room: (npc_id, pos_x, pos_z).
pub const GUARDIAN_NPCS: [(u16, i16, i16); 6] = [
    (31737, 199, 200),
    (31737, 52, 124),
    (31737, 211, 38),
    (31740, 167, 212),
    (31739, 65, 134),
    (31738, 196, 54),
];

/// Boss monster proto IDs that grant the Lunar Order Token on death.
pub const BOSS_MONSTER_IDS: [u16; 5] = [9931, 9951, 9936, 9959, 9971];

/// All monster proto IDs that give dungeon defence rewards, the bosses
/// included.
pub const DD_MONSTER_IDS: [u16; 27] = [
    9927, 9928, 9929, 9930, 9931, 9932, 9933, 9934, 9935, 9936, 9937, 9938, 9939, 9940, 9941, 9942,
    9947, 9948, 9949, 9950, 9951, 9955, 9956, 9957, 9958, 9959, 9971,
];

/// Result codes of the sign (entry) request.
#[derive(Debug, Clone, Copy, PartialEq, Eq, Structural)]
pub enum DdSignResult {
    /// System error / instance generation failed.
    SystemError,
    /// Generic failure (no room, already in event, etc.).
    Failed,
    /// Party members not all in Moradon.
    NotInMoradon,
    /// Another instance is being created.
    InstanceBusy,
    /// A party member is dead.
    MemberDead,
    /// Not in a party.
    NoParty,
    /// Not a Full Moon Rift party.
    WrongPartyType,
    /// A party member lacks the rift voucher.
    NoRiftItem,
}

impl DdSignResult {
    /// Wire value of a result code.
    pub open spec fn spec_code(self) -> u8 {
        match self {
            DdSignResult::SystemError => 0,
            DdSignResult::Failed => 1,
            DdSignResult::NotInMoradon => 2,
            DdSignResult::InstanceBusy => 3,
            DdSignResult::MemberDead => 4,
            DdSignResult::NoParty => 5,
            DdSignResult::WrongPartyType => 6,
            DdSignResult::NoRiftItem => 7,
        }
    }

    /// Wire value of a result code.
    pub fn code(&self) -> (r: u8)
        ensures
            r == self.spec_code(),
    {
        match self {
            DdSignResult::SystemError => 0,
            DdSignResult::Failed => 1,
            DdSignResult::NotInMoradon => 2,
            DdSignResult::InstanceBusy => 3,
            DdSignResult::MemberDead => 4,
            DdSignResult::NoParty => 5,
            DdSignResult::WrongPartyType => 6,
            DdSignResult::NoRiftItem => 7,
        }
    }
}

/// Difficulty level of a room.
#[derive(Debug, Clone, Copy, PartialEq, Eq, Structural)]
pub enum DdDifficulty {
    Easy,
    Normal,
    Hard,
}

/// The difficulty a party of `count` members gets, if any.
pub open spec fn spec_difficulty_for_party(count: u16) -> Option<DdDifficulty> {
    if 2 <= count <= 3 {
        Some(DdDifficulty::Easy)
    } else if 4 <= count <= 7 {
        Some(DdDifficulty::Normal)
    } else if 8 <= count {
        Some(DdDifficulty::Hard)
    } else {
        None
    }
}

/// The difficulty stored in a room under its numeric code.
pub open spec fn spec_difficulty_of_code(code: u16) -> Option<DdDifficulty> {
    if code == 1 {
        Some(DdDifficulty::Easy)
    } else if code == 2 {
        Some(DdDifficulty::Normal)
    } else if code == 3 {
        Some(DdDifficulty::Hard)
    } else {
        None
    }
}

impl DdDifficulty {
    /// Numeric code of the difficulty, as stored in a room.
    pub open spec fn spec_code(self) -> u16 {
        match self {
            DdDifficulty::Easy => 1,
            DdDifficulty::Normal => 2,
            DdDifficulty::Hard => 3,
        }
    }

    /// First stage ID of the difficulty.
    pub open spec fn spec_starting_stage(self) -> i16 {
        match self {
            DdDifficulty::Easy => 1,
            DdDifficulty::Normal => 6,
            DdDifficulty::Hard => 18,
        }
    }

    /// Last stage ID of the difficulty.
    pub open spec fn spec_final_stage(self) -> i16 {
        match self {
            DdDifficulty::Easy => 5,
            DdDifficulty::Normal => 17,
            DdDifficulty::Hard => 35,
        }
    }

    /// Number of stages of the difficulty.
    pub open spec fn spec_max_stages(self) -> u8 {
        match self {
            DdDifficulty::Easy => 5,
            DdDifficulty::Normal => 12,
            DdDifficulty::Hard => 18,
        }
    }

    /// Offset between a stage ID and the stage number shown to players.
    pub open spec fn spec_stage_offset(self) -> i16 {
        match self {
            DdDifficulty::Easy => 0,
            DdDifficulty::Normal => 5,
            DdDifficulty::Hard => 17,
        }
    }

    /// Numeric code of the difficulty, as stored in a room.
    pub fn code(&self) -> (r: u16)
        ensures
            r == self.spec_code(),
    {
        match self {
            DdDifficulty::Easy => 1,
            DdDifficulty::Normal => 2,
            DdDifficulty::Hard => 3,
        }
    }

    /// Determine the difficulty from the party member count:
    /// 2-3 is Easy, 4-7 Normal, 8 or more Hard, fewer than 2 none.
    pub fn from_party_size(count: u16) -> (r: Option<Self>)
        ensures
            r == spec_difficulty_for_party(count),
    {
        if 2 <= count && count <= 3 {
            Some(DdDifficulty::Easy)
        } else if 4 <= count && count <= 7 {
            Some(DdDifficulty::Normal)
        } else if 8 <= count {
            Some(DdDifficulty::Hard)
        } else {
            None
        }
    }

    /// Get the starting stage ID for this difficulty.
    pub fn starting_stage(&self) -> (r: i16)
        ensures
            r == self.spec_starting_stage(),
    {
        match self {
            DdDifficulty::Easy => 1,
            DdDifficulty::Normal => 6,
            DdDifficulty::Hard => 18,
        }
    }

    /// Get the final stage ID for this difficulty.
    pub fn final_stage(&self) -> (r: i16)
        ensures
            r == self.spec_final_stage(),
    {
        match self {
            DdDifficulty::Easy => 5,
            DdDifficulty::Normal => 17,
            DdDifficulty::Hard => 35,
        }
    }

    /// Get the number of stages in this difficulty.
    pub fn max_stages(&self) -> (r: u8)
        ensures
            r == self.spec_max_stages(),
    {
        match self {
            DdDifficulty::Easy => 5,
            DdDifficulty::Normal => 12,
            DdDifficulty::Hard => 18,
        }
    }

    /// Get the stage offset used to compute the displayed stage number
    /// (Easy: the stage ID itself, Normal: ID - 5, Hard: ID - 17).
    pub fn stage_offset(&self) -> (r: i16)
        ensures
            r == self.spec_stage_offset(),
    {
        match self {
            DdDifficulty::Easy => 0,
            DdDifficulty::Normal => 5,
            DdDifficulty::Hard => 17,
        }
    }
}

/// Map a stored difficulty code back to a difficulty.
fn difficulty_of_code(code: u16) -> (r: Option<DdDifficulty>)
    ensures
        r == spec_difficulty_of_code(code),
{
    if code == 1 {
        Some(DdDifficulty::Easy)
    } else if code == 2 {
        Some(DdDifficulty::Normal)
    } else if code == 3 {
        Some(DdDifficulty::Hard)
    } else {
        None
    }
}


/// Stage table row (one row per stage ID of each difficulty).
#[derive(Debug, Clone)]
pub struct DfStageRow {
    /// Row index.
    pub id: i32,
    /// Difficulty code of the stage (1-3).
    pub difficulty: i16,
    /// Display name of the difficulty.
    pub difficulty_name: Option<String>,
    /// Stage ID.
    pub stage_id: i16,
}

/// Monster spawn row of a stage.
#[derive(Debug, Clone)]
pub struct DfMonsterRow {
    /// Stage ID that this spawn belongs to.
    pub id: i32,
    /// Difficulty code, if restricted.
    pub difficulty: Option<i16>,
    /// Monster proto ID.
    pub monster_id: i16,
    /// Whether the spawn is a monster (as opposed to an NPC).
    pub is_monster: bool,
    /// Spawn X position.
    pub pos_x: i16,
    /// Spawn Z position.
    pub pos_z: i16,
    /// Number of monsters.
    pub s_count: Option<i16>,
    /// Facing direction.
    pub s_direction: i16,
    /// Spawn radius.
    pub s_radius_range: Option<i16>,
}

/// Runtime state of one dungeon defence room.
pub struct DdRoomInfo {
    /// Room ID (1-based).
    pub room_id: u16,
    /// Whether the room is in use.
    pub is_started: bool,
    /// Difficulty code (0 when idle, else 1-3).
    pub difficulty: u16,
    /// Current stage ID.
    pub stage_id: i16,
    /// Kill count tracking (for stage advancement).
    pub kill_count: u32,
    /// Seconds until the next monster spawn.
    pub spawn_time: u32,
    /// Seconds until the room is force-closed.
    pub room_close: u32,
    /// Seconds until players are kicked after finishing.
    pub out_time: u16,
    /// Whether the initial spawn countdown is active.
    pub monster_beginner_spawned: bool,
    /// Whether a stage is waiting for its spawn timer.
    pub monster_spawned: bool,
    /// Whether all stages have been cleared.
    pub is_finished: bool,
    /// Users in the room, by session ID.
    pub users: HashMap<usize, String>,
}

/// A room that is idle apart from its ID and user list.
pub open spec fn room_is_idle(room: DdRoomInfo) -> bool {
    &&& !room.is_started
    &&& room.difficulty == 0
    &&& room.stage_id == 0
    &&& room.kill_count == 0
    &&& room.spawn_time == DD_INITIAL_SPAWN_TIME
    &&& room.room_close == DD_ROOM_CLOSE_TIME
    &&& room.out_time == 0
    &&& !room.monster_beginner_spawned
    &&& !room.monster_spawned
    &&& !room.is_finished
}

/// The state of `old` after a successful claim for `difficulty`.
pub open spec fn room_claimed(old: DdRoomInfo, difficulty: DdDifficulty) -> DdRoomInfo {
    DdRoomInfo {
        is_started: true,
        kill_count: 0,
        spawn_time: DD_INITIAL_SPAWN_TIME,
        room_close: DD_ROOM_CLOSE_TIME,
        out_time: 0,
        monster_beginner_spawned: true,
        monster_spawned: false,
        is_finished: false,
        difficulty: difficulty.spec_code(),
        stage_id: difficulty.spec_starting_stage(),
        ..old
    }
}

impl DdRoomInfo {
    /// Create a new, idle room.
    pub fn new(room_id: u16) -> (r: Self)
        ensures
            r.room_id == room_id,
            room_is_idle(r),
            r.users@ == Map::<usize, String>::empty(),
    {
        DdRoomInfo {
            room_id,
            is_started: false,
            difficulty: 0,
            stage_id: 0,
            kill_count: 0,
            spawn_time: DD_INITIAL_SPAWN_TIME,
            room_close: DD_ROOM_CLOSE_TIME,
            out_time: 0,
            monster_beginner_spawned: false,
            monster_spawned: false,
            is_finished: false,
            users: HashMap::new(),
        }
    }

    /// Reset the room to the idle state, keeping its ID, and empty its user list.
    pub fn reset(&mut self)
        ensures
            final(self).room_id == old(self).room_id,
            room_is_idle(*final(self)),
            final(self).users@ == Map::<usize, String>::empty(),
    {
        self.kill_count = 0;
        self.spawn_time = DD_INITIAL_SPAWN_TIME;
        self.room_close = DD_ROOM_CLOSE_TIME;
        self.out_time = 0;
        self.is_started = false;
        self.monster_beginner_spawned = false;
        self.monster_spawned = false;
        self.is_finished = false;
        self.stage_id = 0;
        self.difficulty = 0;
        self.users.clear();
    }

    /// Claim the room for a new run of `difficulty`.
    ///
    /// Returns `false`, leaving the room unchanged, when the room is already
    /// started; otherwise starts the initial countdown at the first stage of
    /// the difficulty and returns `true`.
    pub fn try_claim_and_start(&mut self, difficulty: DdDifficulty) -> (r: bool)
        ensures
            r == !old(self).is_started,
            r ==> *final(self) == room_claimed(*old(self), difficulty),
            !r ==> *final(self) == *old(self),
    {
        if self.is_started {
            return false;
        }
        self.is_started = true;
        self.kill_count = 0;
        self.spawn_time = DD_INITIAL_SPAWN_TIME;
        self.room_close = DD_ROOM_CLOSE_TIME;
        self.out_time = 0;
        self.monster_beginner_spawned = true;
        self.monster_spawned = false;
        self.is_finished = false;
        self.difficulty = difficulty.code();
        self.stage_id = difficulty.starting_stage();
        true
    }
}

/// Find the first room that is not started, claim it for `difficulty`
/// and return its room ID; `None` when every room is in use.
pub fn try_claim_free_room(rooms: &mut Vec<DdRoomInfo>, difficulty: DdDifficulty) -> (r: Option<u16>)
    ensures
        final(rooms)@.len() == old(rooms)@.len(),
        r is None ==> final(rooms)@ == old(rooms)@ && forall|i: int|
            0 <= i < old(rooms)@.len() ==> #[trigger] old(rooms)@[i].is_started,
        r matches Some(id) ==> exists|k: int|
            0 <= k < old(rooms)@.len() && !old(rooms)@[k].is_started && id == old(rooms)@[k].room_id
                && (forall|i: int| 0 <= i < k ==> #[trigger] old(rooms)@[i].is_started)
                && final(rooms)@ == old(rooms)@.update(k, room_claimed(old(rooms)@[k], difficulty)),
{
    let n = rooms.len();
    let mut i: usize = 0;
    while i < n
        invariant
            n == rooms@.len(),
            i <= n,
            rooms@ == old(rooms)@,
            forall|j: int| 0 <= j < i ==> #[trigger] old(rooms)@[j].is_started,
        decreases n - i,
    {
        if !rooms[i].is_started {
            let ghost before = rooms@;
            let claimed = rooms[i].try_claim_and_start(difficulty);
            assert(claimed);
            let id = rooms[i].room_id;
            assert(rooms@ == before.update(i as int, room_claimed(before[i as int], difficulty)));
            return Some(id);
        }
        i = i + 1;
    }
    None
}


/// Result of one timer tick of a room.
#[derive(Debug, PartialEq, Eq, Structural)]
pub enum DdTickResult {
    /// No action needed.
    Idle,
    /// Spawn the monsters of the current stage and send the stage counter.
    SpawnStage {
        /// Stage ID to spawn monsters for.
        stage_id: i16,
        /// Difficulty code for the display packet.
        difficulty: u16,
    },
    /// Room time or finish time expired: kick all players.
    KickAll,
}

/// A countdown value after one second.
pub open spec fn tick_down_u32(x: u32) -> u32 {
    if x > 0 { (x - 1) as u32 } else { 0 }
}

/// A countdown value after one second.
pub open spec fn tick_down_u16(x: u16) -> u16 {
    if x > 0 { (x - 1) as u16 } else { 0 }
}

/// The room state and result of one timer tick.
///
/// An idle room does nothing. Otherwise the spawn countdown goes down one
/// second; when it is at zero while a wave is pending, the wave is spawned.
/// Else the close and finish countdowns go down one second, and the room is
/// emptied when the close countdown or, after the final stage, the finish
/// countdown runs out.
pub open spec fn timer_tick_spec(room: DdRoomInfo) -> (DdRoomInfo, DdTickResult) {
    if !room.is_started {
        (room, DdTickResult::Idle)
    } else {
        let spawn = tick_down_u32(room.spawn_time);
        if spawn == 0 && (room.monster_beginner_spawned || room.monster_spawned) {
            (
                DdRoomInfo {
                    spawn_time: spawn,
                    monster_beginner_spawned: false,
                    monster_spawned: false,
                    ..room
                },
                DdTickResult::SpawnStage { stage_id: room.stage_id, difficulty: room.difficulty },
            )
        } else {
            let close = tick_down_u32(room.room_close);
            let out = tick_down_u16(room.out_time);
            let counted = DdRoomInfo { spawn_time: spawn, room_close: close, out_time: out, ..room };
            if close == 0 {
                (DdRoomInfo { is_started: false, ..counted }, DdTickResult::KickAll)
            } else if out == 0 && room.is_finished {
                (DdRoomInfo { is_finished: false, ..counted }, DdTickResult::KickAll)
            } else {
                (counted, DdTickResult::Idle)
            }
        }
    }
}

/// Run one tick (one second) of the room timer.
pub fn timer_tick(room: &mut DdRoomInfo) -> (r: DdTickResult)
    ensures
        (*final(room), r) == timer_tick_spec(*old(room)),
{
    if !room.is_started {
        return DdTickResult::Idle;
    }
    if room.spawn_time > 0 {
        room.spawn_time = room.spawn_time - 1;
    }
    if room.spawn_time == 0 && (room.monster_beginner_spawned || room.monster_spawned) {
        if room.monster_beginner_spawned {
            room.monster_beginner_spawned = false;
        }
        room.monster_spawned = false;
        return DdTickResult::SpawnStage { stage_id: room.stage_id, difficulty: room.difficulty };
    }
    if room.room_close > 0 {
        room.room_close = room.room_close - 1;
    }
    if room.out_time > 0 {
        room.out_time = room.out_time - 1;
    }
    if room.room_close == 0 && room.is_started {
        room.is_started = false;
        return DdTickResult::KickAll;
    }
    if room.out_time == 0 && room.is_finished {
        room.is_finished = false;
        return DdTickResult::KickAll;
    }
    DdTickResult::Idle
}

/// Result of advancing to the next stage.
#[derive(Debug, PartialEq, Eq, Structural)]
pub enum StageAdvanceResult {
    /// Advanced to the next stage; the spawn timer is set.
    NextStage {
        /// The new stage ID.
        new_stage_id: i16,
        /// Spawn delay in seconds.
        spawn_delay: u32,
    },
    /// All stages cleared: trigger the finish timer.
    Finished,
    /// The room holds no valid difficulty.
    Error,
}

/// Spawn delay, in seconds, of a stage.
///
/// Easy: stages 1-5 wait 10s. Normal: 6-10 wait 10s, 11-17 wait 20s.
/// Hard: 18-22 wait 10s, 23-29 wait 20s, 30-35 wait 30s. Stages outside
/// these ranges wait 20s, except for Normal, where they wait 15s.
pub open spec fn spec_spawn_delay(difficulty: u16, stage_id: i16) -> u32 {
    if difficulty == 1 {
        if 1 <= stage_id <= 5 { 10 } else { 20 }
    } else if difficulty == 2 {
        if 6 <= stage_id <= 10 { 10 } else if 11 <= stage_id <= 17 { 20 } else { 15 }
    } else if difficulty == 3 {
        if 18 <= stage_id <= 22 {
            10
        } else if 23 <= stage_id <= 29 {
            20
        } else if 30 <= stage_id <= 35 {
            30
        } else {
            20
        }
    } else {
        20
    }
}

/// Within the stages of a difficulty the wait before a wave never
/// shortens from one stage to a later one, the first five stages wait 10
/// seconds, and every wait is 10, 15, 20 or 30 seconds.
pub proof fn lemma_spawn_delay_grows(d: DdDifficulty, s1: i16, s2: i16)
    requires
        d.spec_starting_stage() <= s1 <= s2 <= d.spec_final_stage(),
    ensures
        spec_spawn_delay(d.spec_code(), s1) <= spec_spawn_delay(d.spec_code(), s2),
        s1 < d.spec_starting_stage() + 5 ==> spec_spawn_delay(d.spec_code(), s1) == 10,
        ({
            let w = spec_spawn_delay(d.spec_code(), s1);
            w == 10 || w == 15 || w == 20 || w == 30
        }),
{
}

/// Get the spawn delay for a given difficulty and stage.
pub fn get_spawn_delay(difficulty: u16, stage_id: i16) -> (r: u32)
    ensures
        r == spec_spawn_delay(difficulty, stage_id),
{
    if difficulty == 1 {
        if 1 <= stage_id && stage_id <= 5 {
            10
        } else {
            20
        }
    } else if difficulty == 2 {
        if 6 <= stage_id && stage_id <= 10 {
            10
        } else if 11 <= stage_id && stage_id <= 17 {
            20
        } else {
            15
        }
    } else if difficulty == 3 {
        if 18 <= stage_id && stage_id <= 22 {
            10
        } else if 23 <= stage_id && stage_id <= 29 {
            20
        } else if 30 <= stage_id && stage_id <= 35 {
            30
        } else {
            20
        }
    } else {
        20
    }
}

/// Whether the stage table holds stage `stage_id` of difficulty `difficulty`.
pub open spec fn stage_listed(stages: Seq<DfStageRow>, difficulty: u16, stage_id: i16) -> bool {
    exists|i: int| 0 <= i < stages.len() && #[trigger] stages[i].difficulty == difficulty
        && stages[i].stage_id == stage_id
}

/// The room state and result of advancing a room to its next stage.
///
/// A room without a valid difficulty gives `Error`; a room at the final stage
/// of its difficulty, or whose next stage is not in the stage table, gives
/// `Finished`. These leave the room unchanged. Otherwise the room moves to
/// the next stage, marks the wave pending and sets its spawn delay.
pub open spec fn advance_stage_spec(room: DdRoomInfo, stages: Seq<DfStageRow>) -> (
    DdRoomInfo,
    StageAdvanceResult,
) {
    match spec_difficulty_of_code(room.difficulty) {
        None => (room, StageAdvanceResult::Error),
        Some(d) => {
            let next = (room.stage_id + 1) as i16;
            if room.stage_id == d.spec_final_stage() || !stage_listed(stages, room.difficulty, next) {
                (room, StageAdvanceResult::Finished)
            } else {
                let delay = spec_spawn_delay(room.difficulty, next);
                (
                    DdRoomInfo { stage_id: next, monster_spawned: true, spawn_time: delay, ..room },
                    StageAdvanceResult::NextStage { new_stage_id: next, spawn_delay: delay },
                )
            }
        },
    }
}

/// Advance a room to its next stage once every monster of the current stage is dead.
pub fn advance_stage(room: &mut DdRoomInfo, stages: &[DfStageRow]) -> (r: StageAdvanceResult)
    requires
        old(room).stage_id < i16::MAX,
    ensures
        (*final(room), r) == advance_stage_spec(*old(room), stages@),
{
    let difficulty = room.difficulty;
    let current_stage = room.stage_id;
    let dd_difficulty = match difficulty_of_code(difficulty) {
        Some(d) => d,
        None => return StageAdvanceResult::Error,
    };
    if current_stage == dd_difficulty.final_stage() {
        return StageAdvanceResult::Finished;
    }
    let next_stage = current_stage + 1;
    let code = difficulty as i16;
    let mut stage_exists = false;
    let mut i: usize = 0;
    while i < stages.len()
        invariant
            i <= stages@.len(),
            1 <= difficulty <= 3,
            code == difficulty,
            stage_exists <==> exists|j: int| 0 <= j < i && #[trigger] stages@[j].difficulty == difficulty
                && stages@[j].stage_id == next_stage,
        decreases stages@.len() - i,
    {
        if stages[i].difficulty == code && stages[i].stage_id == next_stage {
            stage_exists = true;
        }
        i = i + 1;
    }
    if !stage_exists {
        return StageAdvanceResult::Finished;
    }
    room.stage_id = next_stage;
    room.monster_spawned = true;
    let delay = get_spawn_delay(difficulty, next_stage);
    room.spawn_time = delay;
    StageAdvanceResult::NextStage { new_stage_id: next_stage, spawn_delay: delay }
}

/// Whether a monster proto ID is one of the dungeon defence monsters.
pub fn is_dd_monster(proto_id: u16) -> (r: bool)
    ensures
        r == DD_MONSTER_IDS@.contains(proto_id),
{
    let ids = DD_MONSTER_IDS;
    let mut i: usize = 0;
    while i < 27
        invariant
            i <= 27,
            ids@ == DD_MONSTER_IDS@,
            forall|j: int| 0 <= j < i ==> ids@[j] != proto_id,
        decreases 27 - i,
    {
        if ids[i] == proto_id {
            assert(ids@[i as int] == proto_id);
            return true;
        }
        i = i + 1;
    }
    false
}

/// Whether a monster proto ID is a dungeon defence boss (grants the Lunar Order Token).
pub fn is_dd_boss(proto_id: u16) -> (r: bool)
    ensures
        r == BOSS_MONSTER_IDS@.contains(proto_id),
{
    let ids = BOSS_MONSTER_IDS;
    let mut i: usize = 0;
    while i < 5
        invariant
            i <= 5,
            ids@ == BOSS_MONSTER_IDS@,
            forall|j: int| 0 <= j < i ==> ids@[j] != proto_id,
        decreases 5 - i,
    {
        if ids[i] == proto_id {
            assert(ids@[i as int] == proto_id);
            return true;
        }
        i = i + 1;
    }
    false
}


/// Rewards of one monster kill.
#[derive(Debug, Clone, PartialEq, Eq, Structural)]
pub struct DdKillReward {
    /// Number of Full Moon Rift Jewels for the killer.
    pub rift_jewel_count: u16,
    /// Number of Monster Coins for the killer.
    pub killer_coin_count: u16,
    /// Number of Monster Coins for the other party members.
    pub party_coin_count: u16,
    /// Whether the party gets Lunar Order Tokens.
    pub lunar_token: bool,
}

/// Rewards for killing `proto_id` during stage `current_stage`: none for a
/// monster that is not a dungeon defence monster; else 2 jewels in stages
/// 18-35 and 1 otherwise, 2 coins for the killer and 1 for each other
/// member, and tokens for a boss.
pub open spec fn spec_kill_reward(proto_id: u16, current_stage: i16) -> Option<DdKillReward> {
    if !DD_MONSTER_IDS@.contains(proto_id) {
        None
    } else {
        Some(
            DdKillReward {
                rift_jewel_count: if 18 <= current_stage <= 35 { 2 } else { 1 },
                killer_coin_count: 2,
                party_coin_count: 1,
                lunar_token: BOSS_MONSTER_IDS@.contains(proto_id),
            },
        )
    }
}

/// Calculate the rewards of a monster kill.
pub fn calculate_kill_reward(proto_id: u16, current_stage: i16) -> (r: Option<DdKillReward>)
    ensures
        r == spec_kill_reward(proto_id, current_stage),
{
    if !is_dd_monster(proto_id) {
        return None;
    }
    let rift_jewel_count: u16 = if 18 <= current_stage && current_stage <= 35 {
        2
    } else {
        1
    };
    let lunar_token = is_dd_boss(proto_id);
    Some(DdKillReward { rift_jewel_count, killer_coin_count: 2, party_coin_count: 1, lunar_token })
}

/// The stage counter shown for a room: `(max_stage, display_stage)`, where
/// the display stage is the stage ID minus the difficulty's offset, as a byte.
pub open spec fn spec_stage_display(difficulty: u16, stage_id: i16) -> Option<(u8, u8)> {
    match spec_difficulty_of_code(difficulty) {
        None => None,
        Some(d) => Some((d.spec_max_stages(), (stage_id - d.spec_stage_offset()) as u8)),
    }
}

/// Build the stage counter display values `(max_stage, display_stage)`
/// for a room; `None` for an invalid difficulty.
pub fn get_stage_display(difficulty: u16, stage_id: i16) -> (r: Option<(u8, u8)>)
    requires
        stage_id >= i16::MIN + 17,
    ensures
        r == spec_stage_display(difficulty, stage_id),
{
    let dd_diff = match difficulty_of_code(difficulty) {
        Some(d) => d,
        None => return None,
    };
    let max_stage = dd_diff.max_stages();
    let shown = stage_id - dd_diff.stage_offset();
    let display_stage = shown as u8;
    Some((max_stage, display_stage))
}

/// Start the finish sequence of a room: no wave pending, finished, and
/// the kick countdown set to `DD_FINISH_TIME`.
pub fn trigger_finish(room: &mut DdRoomInfo)
    ensures
        *final(room) == (DdRoomInfo {
            monster_beginner_spawned: false,
            monster_spawned: false,
            is_finished: true,
            out_time: DD_FINISH_TIME,
            ..*old(room)
        }),
{
    room.monster_beginner_spawned = false;
    room.monster_spawned = false;
    room.is_finished = true;
    room.out_time = DD_FINISH_TIME;
}

/// Find the first stage row of the given difficulty and stage ID.
pub fn select_stage(stages: &[DfStageRow], difficulty: u16, stage_id: i16) -> (r: Option<&DfStageRow>)
    ensures
        r is None <==> !stage_listed(stages@, difficulty, stage_id),
        r matches Some(row) ==> exists|k: int|
            0 <= k < stages@.len() && *row == stages@[k] && row.difficulty == difficulty
                && row.stage_id == stage_id && forall|j: int|
                0 <= j < k ==> !(#[trigger] stages@[j].difficulty == difficulty
                    && stages@[j].stage_id == stage_id),
{
    let mut i: usize = 0;
    while i < stages.len()
        invariant
            i <= stages@.len(),
            forall|j: int| 0 <= j < i ==> !(#[trigger] stages@[j].difficulty == difficulty
                && stages@[j].stage_id == stage_id),
        decreases stages@.len() - i,
    {
        if stages[i].stage_id == stage_id && stages[i].difficulty as i32 == difficulty as i32 {
            return Some(&stages[i]);
        }
        i = i + 1;
    }
    None
}

/// The spawn rows of stage `stage_id`, in table order.
pub open spec fn stage_monster_rows(monsters: Seq<DfMonsterRow>, stage_id: i16) -> Seq<DfMonsterRow> {
    monsters.filter(|m: DfMonsterRow| m.id == stage_id as i32)
}

/// Get all monster spawn rows of a stage.
pub fn get_stage_monsters(monsters: &[DfMonsterRow], stage_id: i16) -> (r: Vec<&DfMonsterRow>)
    ensures
        r@.map_values(|m: &DfMonsterRow| *m) == stage_monster_rows(monsters@, stage_id),
{
    let mut out: Vec<&DfMonsterRow> = Vec::new();
    let id = stage_id as i32;
    let mut i: usize = 0;
    while i < monsters.len()
        invariant
            i <= monsters@.len(),
            id == stage_id as i32,
            out@.map_values(|m: &DfMonsterRow| *m) == stage_monster_rows(monsters@.take(i as int), stage_id),
        decreases monsters@.len() - i,
    {
        proof {
            monsters@.take(i as int).lemma_filter_push(monsters@[i as int], |m: DfMonsterRow| m.id == stage_id as i32);
            assert(monsters@.take(i as int + 1) == monsters@.take(i as int).push(monsters@[i as int]));
        }
        if monsters[i].id == id {
            out.push(&monsters[i]);
        }
        i = i + 1;
    }
    assert(monsters@.take(monsters@.len() as int) == monsters@);
    out
}

/// Whether Monster Coins are taken from a user who enters the zone: always.
pub fn should_rob_monster_coins() -> (r: bool)
    ensures
        r,
{
    true
}


/// Each difficulty numbers its stages 1 to its stage count: its first stage
/// ID minus its offset is 1, its final stage ID minus its offset is its stage
/// count, and its stored code maps back to it.
pub proof fn lemma_stage_numbering(d: DdDifficulty)
    ensures
        d.spec_starting_stage() - d.spec_stage_offset() == 1,
        d.spec_final_stage() - d.spec_stage_offset() == d.spec_max_stages(),
        d.spec_final_stage() - d.spec_starting_stage() + 1 == d.spec_max_stages(),
        spec_difficulty_of_code(d.spec_code()) == Some(d),
{
}

/// The stage IDs of the difficulties follow each other without gap:
/// Easy 1-5, Normal 6-17, Hard 18-35.
pub proof fn lemma_stage_ranges_contiguous()
    ensures
        DdDifficulty::Easy.spec_starting_stage() == 1,
        DdDifficulty::Easy.spec_final_stage() + 1 == DdDifficulty::Normal.spec_starting_stage(),
        DdDifficulty::Normal.spec_final_stage() + 1 == DdDifficulty::Hard.spec_starting_stage(),
        DdDifficulty::Hard.spec_final_stage() == 35,
{
}

/// Every party of two or more members gets a difficulty, and a larger
/// party never gets an easier one.
pub proof fn lemma_party_difficulty_monotone(a: u16, b: u16)
    requires
        2 <= a <= b,
    ensures
        spec_difficulty_for_party(a) is Some,
        spec_difficulty_for_party(b) is Some,
        spec_difficulty_for_party(a)->0.spec_code() <= spec_difficulty_for_party(b)->0.spec_code(),
{
}

/// The stage counter of a room whose stage lies in its difficulty's range
/// shows a stage between 1 and the difficulty's stage count.
pub proof fn lemma_stage_display_in_range(d: DdDifficulty, stage_id: i16)
    requires
        d.spec_starting_stage() <= stage_id <= d.spec_final_stage(),
    ensures
        spec_stage_display(d.spec_code(), stage_id) == Some(
            (d.spec_max_stages(), (stage_id - d.spec_stage_offset()) as u8),
        ),
        1 <= stage_id - d.spec_stage_offset() <= d.spec_max_stages(),
{
}

/// Advancing never takes a room out of the stage range of its difficulty,
/// never changes its difficulty, and moves it one stage at a time.
pub proof fn lemma_advance_stays_in_range(room: DdRoomInfo, stages: Seq<DfStageRow>, d: DdDifficulty)
    requires
        spec_difficulty_of_code(room.difficulty) == Some(d),
        d.spec_starting_stage() <= room.stage_id <= d.spec_final_stage(),
    ensures
        ({
            let (after, res) = advance_stage_spec(room, stages);
            &&& d.spec_starting_stage() <= after.stage_id <= d.spec_final_stage()
            &&& after.difficulty == room.difficulty
            &&& after.room_id == room.room_id
            &&& (res is NextStage ==> after.stage_id == room.stage_id + 1)
            &&& (!(res is NextStage) ==> after == room)
        }),
{
}

/// With a stage table that lists every stage of the difficulty, a room
/// below its final stage advances to the next one, and a room at its final
/// stage finishes.
pub proof fn lemma_advance_through_listed_stages(room: DdRoomInfo, stages: Seq<DfStageRow>, d: DdDifficulty)
    requires
        spec_difficulty_of_code(room.difficulty) == Some(d),
        d.spec_starting_stage() <= room.stage_id <= d.spec_final_stage(),
        forall|s: i16|
            d.spec_starting_stage() <= s <= d.spec_final_stage() ==> stage_listed(
                stages,
                room.difficulty,
                s,
            ),
    ensures
        room.stage_id < d.spec_final_stage() ==> advance_stage_spec(room, stages).1 == (
        StageAdvanceResult::NextStage {
            new_stage_id: (room.stage_id + 1) as i16,
            spawn_delay: spec_spawn_delay(room.difficulty, (room.stage_id + 1) as i16),
        }),
        room.stage_id == d.spec_final_stage() ==> advance_stage_spec(room, stages).1
            == StageAdvanceResult::Finished,
{
    let next = (room.stage_id + 1) as i16;
    if room.stage_id < d.spec_final_stage() {
        assert(stage_listed(stages, room.difficulty, next));
    }
}

/// The timer never changes a room's ID, difficulty, stage, kill count or
/// users, and a room that is not started stays untouched.
pub proof fn lemma_timer_keeps_run(room: DdRoomInfo)
    ensures
        ({
            let (after, res) = timer_tick_spec(room);
            &&& after.room_id == room.room_id
            &&& after.difficulty == room.difficulty
            &&& after.stage_id == room.stage_id
            &&& after.kill_count == room.kill_count
            &&& after.users == room.users
            &&& (!room.is_started ==> after == room && res == DdTickResult::Idle)
        }),
{
}

/// A claimed room starts its initial countdown at the first stage of the
/// claimed difficulty, and a claimed room cannot be claimed again before a reset.
pub proof fn lemma_claimed_room(room: DdRoomInfo, d: DdDifficulty)
    ensures
        room_claimed(room, d).is_started,
        room_claimed(room, d).stage_id == d.spec_starting_stage(),
        spec_difficulty_of_code(room_claimed(room, d).difficulty) == Some(d),
        room_claimed(room, d).spawn_time == DD_INITIAL_SPAWN_TIME,
        room_claimed(room, d).room_id == room.room_id,
{
}

} // verus!
