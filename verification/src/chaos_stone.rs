//! Chaos stones: destructible world NPCs that, once destroyed, advance to
//! their next rank, summon a family of monsters, and respawn after thirty
//! minutes.
//!
//! One `ChaosStoneInfo` is kept per rank-1 spawn row, numbered from 1 in
//! loading order. A stone of rank N advances to rank N+1 when killed, or
//! back to rank 1 when no spawn row has rank N+1. After summoning family F
//! the next family is F+1 when the zone has a stage for it, else 1. The
//! summoned bosses are tracked (up to ten per stone); when the last one
//! dies, the wave is complete.

use std::string::String;
use std::vec::Vec;
use vstd::prelude::*;

verus! {

/// Respawn time of a destroyed stone, in seconds.
pub const CHAOS_STONE_RESPAWN_TIME: u32 = 1800;

/// Radius around the stone in which its monsters spawn.
pub const CHAOS_STONE_MONSTER_RESPAWN_RADIUS: u16 = 20;

/// Lifetime of the monsters of a special stone, in seconds.
pub const CHAOS_STONE_MONSTER_LIVE_TIME: u32 = 900;

/// Number of bosses tracked per stone.
pub const MAX_BOSS_IDS: usize = 10;

/// Most stones loaded.
pub const MAX_CHAOS_STONES: usize = 50;

/// NPC type of special stones.
pub const NPC_MONSTER_SPECIAL: u8 = 221;

/// A spawn point of a chaos stone at one rank.
#[derive(Debug, Clone, Copy, PartialEq, Eq, Structural)]
pub struct ChaosStoneSpawnRow {
    pub s_index: i16,
    pub zone_id: i16,
    pub is_open: bool,
    pub rank: i16,
    pub chaos_id: i16,
    pub count: i16,
    pub spawn_x: i16,
    pub spawn_z: i16,
    pub spawn_time: i16,
    pub direction: i16,
    pub radius_range: i16,
}

/// A monster summoned by the stones of a zone, in a family.
#[derive(Debug, Clone, Copy, PartialEq, Eq, Structural)]
pub struct ChaosStoneSummonListRow {
    pub n_index: i16,
    pub zone_id: i16,
    pub sid: i16,
    pub monster_spawn_family: i16,
}

/// A monster family of a zone.
#[derive(Debug, Clone, Copy, PartialEq, Eq, Structural)]
pub struct ChaosStoneSummonStageRow {
    pub n_index: i16,
    pub zone_id: i16,
    pub index_family: i16,
}

/// The rewards of one rank.
#[derive(Debug, Clone, Copy, PartialEq, Eq, Structural)]
pub struct EventChaosRewardRow {
    pub rank_id: i16,
    pub item_id1: i32,
    pub item_count1: i32,
    pub item_expiration1: i32,
    pub item_id2: i32,
    pub item_count2: i32,
    pub item_expiration2: i32,
    pub item_id3: i32,
    pub item_count3: i32,
    pub item_expiration3: i32,
    pub item_id4: i32,
    pub item_count4: i32,
    pub item_expiration4: i32,
    pub item_id5: i32,
    pub item_count5: i32,
    pub item_expiration5: i32,
    pub experience: i32,
    pub loyalty: i32,
    pub cash: i32,
    pub noah: i32,
}

/// A monster a special stone may summon.
#[derive(Debug, Clone)]
pub struct SpecialStoneRow {
    pub n_index: i16,
    pub zone_id: i16,
    pub main_npc: i16,
    pub monster_name: String,
    pub summon_npc: i16,
    pub summon_count: i16,
    pub status: i16,
}

/// Runtime state of one chaos stone.
#[derive(Debug, Clone)]
pub struct ChaosStoneInfo {
    /// Number of the stone (from 1, in loading order).
    pub chaos_index: u8,
    /// NPC template of the stone.
    pub chaos_id: u16,
    pub zone_id: u16,
    /// Current rank.
    pub rank: u8,
    /// Respawn countdown, in seconds.
    pub spawn_time: u32,
    /// Monster family summoned at the next death.
    pub monster_family: u8,
    /// Runtime IDs of the tracked bosses (0 for an empty slot); always
    /// `MAX_BOSS_IDS` slots.
    pub boss_ids: Vec<u32>,
    /// Bosses still alive.
    pub boss_killed_count: i16,
    /// The stone was destroyed and waits to respawn.
    pub is_chaos_stone_killed: bool,
    /// Every summoned boss is dead.
    pub is_total_killed_monster: bool,
    /// The respawn countdown runs.
    pub is_on_res_timer: bool,
    /// The spawn point is enabled.
    pub chaos_stone_on: bool,
}

impl ChaosStoneInfo {
    /// The stone has its `MAX_BOSS_IDS` boss slots.
    pub open spec fn wf(&self) -> bool {
        self.boss_ids@.len() == MAX_BOSS_IDS
    }

    /// The state of an inactive stone: rank 1, a full respawn countdown,
    /// no bosses, nothing killed, disabled.
    pub open spec fn is_fresh(&self) -> bool {
        &&& self.chaos_index == 0
        &&& self.chaos_id == 0
        &&& self.zone_id == 0
        &&& self.rank == 1
        &&& self.spawn_time == CHAOS_STONE_RESPAWN_TIME
        &&& self.monster_family == 0
        &&& self.boss_ids@ == Seq::new(MAX_BOSS_IDS as nat, |i: int| 0u32)
        &&& self.boss_killed_count == 0
        &&& !self.is_chaos_stone_killed
        &&& !self.is_total_killed_monster
        &&& !self.is_on_res_timer
        &&& !self.chaos_stone_on
    }

    /// An inactive stone.
    pub fn new() -> (r: ChaosStoneInfo)
        ensures
            r.wf(),
            r.is_fresh(),
    {
        let boss_ids = vec![0u32; MAX_BOSS_IDS];
        assert(boss_ids@ =~= Seq::new(MAX_BOSS_IDS as nat, |i: int| 0u32));
        ChaosStoneInfo {
            chaos_index: 0,
            chaos_id: 0,
            zone_id: 0,
            rank: 1,
            spawn_time: CHAOS_STONE_RESPAWN_TIME,
            monster_family: 0,
            boss_ids,
            boss_killed_count: 0,
            is_chaos_stone_killed: false,
            is_total_killed_monster: false,
            is_on_res_timer: false,
            chaos_stone_on: false,
        }
    }

    /// Return the stone to the inactive state.
    pub fn reset(&mut self)
        ensures
            final(self).wf(),
            final(self).is_fresh(),
    {
        *self = ChaosStoneInfo::new();
    }
}

impl Default for ChaosStoneInfo {
    fn default() -> (r: Self)
        ensures
            r.wf(),
            r.is_fresh(),
    {
        ChaosStoneInfo::new()
    }
}

/// Every stone has its boss slots.
pub open spec fn all_wf(infos: Seq<ChaosStoneInfo>) -> bool {
    forall|k: int| 0 <= k < infos.len() ==> (#[trigger] infos[k]).wf()
}

// ── Loading ──────────────────────────────────────────────────────────

/// The spawn rows of rank 1.
pub open spec fn rank_one_rows(spawns: Seq<ChaosStoneSpawnRow>) -> Seq<ChaosStoneSpawnRow> {
    spawns.filter(|s: ChaosStoneSpawnRow| s.rank == 1)
}

/// The stone loaded as number `index` from a rank-1 spawn row.
pub open spec fn loaded_stone(row: ChaosStoneSpawnRow, index: u8, s: ChaosStoneInfo) -> bool {
    &&& s.wf()
    &&& s.chaos_index == index
    &&& s.chaos_id == row.chaos_id as u16
    &&& s.rank == row.rank as u8
    &&& s.zone_id == row.zone_id as u16
    &&& s.spawn_time == CHAOS_STONE_RESPAWN_TIME
    &&& s.monster_family == 1
    &&& s.chaos_stone_on == row.is_open
    &&& s.boss_ids@ == Seq::new(MAX_BOSS_IDS as nat, |i: int| 0u32)
    &&& s.boss_killed_count == 0
    &&& !s.is_chaos_stone_killed
    &&& !s.is_total_killed_monster
    &&& !s.is_on_res_timer
}

/// Load one stone per rank-1 spawn row, in order and numbered from 1, up
/// to 50 stones; each starts with monster family 1 and is enabled when its
/// row is open.
pub fn load_chaos_stones(spawns: &Vec<ChaosStoneSpawnRow>) -> (r: Vec<ChaosStoneInfo>)
    ensures
        r@.len() == if rank_one_rows(spawns@).len() < MAX_CHAOS_STONES {
            rank_one_rows(spawns@).len()
        } else {
            MAX_CHAOS_STONES as nat
        },
        forall|k: int|
            0 <= k < r@.len() ==> loaded_stone(rank_one_rows(spawns@)[k], (k + 1) as u8, #[trigger] r@[k]),
{
    let mut result: Vec<ChaosStoneInfo> = Vec::new();
    let mut i: usize = 0;
    while i < spawns.len() && result.len() < MAX_CHAOS_STONES
        invariant
            i <= spawns@.len(),
            result@.len() <= MAX_CHAOS_STONES,
            result@.len() == rank_one_rows(spawns@.take(i as int)).len(),
            forall|k: int|
                0 <= k < result@.len() ==> loaded_stone(
                    rank_one_rows(spawns@.take(i as int))[k],
                    (k + 1) as u8,
                    #[trigger] result@[k],
                ),
        decreases spawns@.len() - i,
    {
        let spawn = spawns[i];
        proof {
            assert(spawns@.take(i + 1) =~= spawns@.take(i as int).push(spawn));
            spawns@.take(i as int).lemma_filter_push(spawn, |s: ChaosStoneSpawnRow| s.rank == 1);
        }
        if spawn.rank == 1 {
            let mut info = ChaosStoneInfo::new();
            info.chaos_index = (result.len() + 1) as u8;
            info.chaos_id = spawn.chaos_id as u16;
            info.rank = spawn.rank as u8;
            info.zone_id = spawn.zone_id as u16;
            info.spawn_time = CHAOS_STONE_RESPAWN_TIME;
            info.monster_family = 1;
            info.chaos_stone_on = spawn.is_open;
            result.push(info);
        }
        i = i + 1;
    }
    proof {
        lemma_filter_prefix_grows(spawns@, i as int);
        if i == spawns@.len() {
            assert(spawns@.take(i as int) =~= spawns@);
        }
    }
    result
}

/// Filtering a longer prefix keeps the filtered shorter prefix in front.
proof fn lemma_filter_prefix_grows(spawns: Seq<ChaosStoneSpawnRow>, i: int)
    requires
        0 <= i <= spawns.len(),
    ensures
        rank_one_rows(spawns.take(i)).len() <= rank_one_rows(spawns).len(),
        forall|k: int|
            0 <= k < rank_one_rows(spawns.take(i)).len() ==> #[trigger] rank_one_rows(spawns)[k]
                == rank_one_rows(spawns.take(i))[k],
    decreases spawns.len() - i,
{
    if i < spawns.len() {
        lemma_filter_prefix_grows(spawns, i + 1);
        assert(spawns.take(i + 1) =~= spawns.take(i).push(spawns[i]));
        spawns.take(i).lemma_filter_push(spawns[i], |s: ChaosStoneSpawnRow| s.rank == 1);
    } else {
        assert(spawns.take(i) =~= spawns);
    }
}

// ── Spawn rows ───────────────────────────────────────────────────────

/// An open spawn row for stone `proto_id` at `rank` in `zone_id`.
pub open spec fn spawn_matches(s: ChaosStoneSpawnRow, proto_id: u16, rank: u8, zone_id: u16) -> bool {
    s.is_open && s.chaos_id as u16 == proto_id && s.rank as u8 == rank && s.zone_id as u16
        == zone_id
}

/// Some open spawn row exists for stone `proto_id` at `rank` in `zone_id`.
pub open spec fn has_spawn(spawns: Seq<ChaosStoneSpawnRow>, proto_id: u16, rank: u8, zone_id: u16) -> bool {
    exists|k: int| 0 <= k < spawns.len() && spawn_matches(#[trigger] spawns[k], proto_id, rank, zone_id)
}

/// Position of the first open spawn row for stone `proto_id` at `rank` in
/// `zone_id`.
pub fn find_spawn_index(
    spawns: &Vec<ChaosStoneSpawnRow>,
    proto_id: u16,
    rank: u8,
    zone_id: u16,
) -> (r: Option<usize>)
    ensures
        r is None <==> !has_spawn(spawns@, proto_id, rank, zone_id),
        r matches Some(k) ==> k < spawns@.len() && spawn_matches(spawns@[k as int], proto_id, rank, zone_id)
            && forall|j: int| 0 <= j < k ==> !spawn_matches(#[trigger] spawns@[j], proto_id, rank, zone_id),
{
    let mut i: usize = 0;
    while i < spawns.len()
        invariant
            i <= spawns@.len(),
            forall|j: int| 0 <= j < i ==> !spawn_matches(#[trigger] spawns@[j], proto_id, rank, zone_id),
        decreases spawns@.len() - i,
    {
        let s = spawns[i];
        if s.is_open && s.chaos_id as u16 == proto_id && s.rank as u8 == rank && s.zone_id as u16
            == zone_id {
            return Some(i);
        }
        i = i + 1;
    }
    None
}

/// The spawn row used to respawn stone `chaos_id` at `rank` in `zone_id`:
/// the first open one.
pub fn get_respawn_data(
    spawns: &Vec<ChaosStoneSpawnRow>,
    chaos_id: u16,
    rank: u8,
    zone_id: u16,
) -> (r: Option<&ChaosStoneSpawnRow>)
    ensures
        r is None <==> !has_spawn(spawns@, chaos_id, rank, zone_id),
        r matches Some(x) ==> exists|k: int|
            0 <= k < spawns@.len() && spawns@[k] == *x && spawn_matches(*x, chaos_id, rank, zone_id)
                && forall|j: int| 0 <= j < k ==> !spawn_matches(#[trigger] spawns@[j], chaos_id, rank, zone_id),
{
    match find_spawn_index(spawns, chaos_id, rank, zone_id) {
        Some(k) => Some(&spawns[k]),
        None => None,
    }
}

// ── Deaths and respawns ──────────────────────────────────────────────

/// The stone is enabled and is stone `proto_id` of `zone_id`.
pub open spec fn stone_hit(info: ChaosStoneInfo, proto_id: u16, zone_id: u16) -> bool {
    info.chaos_stone_on && info.zone_id == zone_id && info.chaos_id == proto_id
}

/// The rank after `rank` (wrapping past 255).
pub open spec fn next_rank(rank: u8) -> u8 {
    if rank == 255 {
        0
    } else {
        (rank + 1) as u8
    }
}

/// A destroyed stone: it advances to the next rank when an open spawn row
/// exists for it, else back to rank 1, and its respawn countdown starts.
pub open spec fn after_death(info: ChaosStoneInfo, spawns: Seq<ChaosStoneSpawnRow>) -> ChaosStoneInfo {
    ChaosStoneInfo {
        rank: if has_spawn(spawns, info.chaos_id, next_rank(info.rank), info.zone_id) {
            next_rank(info.rank)
        } else {
            1
        },
        is_chaos_stone_killed: true,
        spawn_time: CHAOS_STONE_RESPAWN_TIME,
        is_total_killed_monster: false,
        boss_killed_count: 0,
        is_on_res_timer: true,
        ..info
    }
}

impl ChaosStoneInfo {
    /// This stone was destroyed.
    pub fn die(&mut self, spawns: &Vec<ChaosStoneSpawnRow>)
        ensures
            *final(self) == after_death(*old(self), spawns@),
    {
        let new_rank = if self.rank == 255 {
            0
        } else {
            self.rank + 1
        };
        self.is_chaos_stone_killed = true;
        match find_spawn_index(spawns, self.chaos_id, new_rank, self.zone_id) {
            Some(k) => {
                self.rank = spawns[k].rank as u8;
            },
            None => {
                self.rank = 1;
            },
        }
        self.spawn_time = CHAOS_STONE_RESPAWN_TIME;
        self.is_total_killed_monster = false;
        self.boss_killed_count = 0;
        self.is_on_res_timer = true;
    }
}

/// Stone `proto_id` of `zone_id` was destroyed: every enabled stone of
/// that template and zone dies (see `after_death`). Returns the number of
/// the last one, or `None` when none matched.
pub fn on_chaos_stone_death(
    infos: &mut Vec<ChaosStoneInfo>,
    spawns: &Vec<ChaosStoneSpawnRow>,
    proto_id: u16,
    zone_id: u16,
) -> (r: Option<u8>)
    ensures
        final(infos)@.len() == old(infos)@.len(),
        forall|k: int|
            0 <= k < old(infos)@.len() ==> #[trigger] final(infos)@[k] == if stone_hit(
                old(infos)@[k],
                proto_id,
                zone_id,
            ) {
                after_death(old(infos)@[k], spawns@)
            } else {
                old(infos)@[k]
            },
        r is None <==> forall|k: int| 0 <= k < old(infos)@.len() ==> !stone_hit(#[trigger] old(infos)@[k], proto_id, zone_id),
        r matches Some(idx) ==> exists|k: int|
            0 <= k < old(infos)@.len() && stone_hit(#[trigger] old(infos)@[k], proto_id, zone_id)
                && old(infos)@[k].chaos_index == idx && forall|j: int|
                k < j < old(infos)@.len() ==> !stone_hit(#[trigger] old(infos)@[j], proto_id, zone_id),
{
    let mut result: Option<u8> = None;
    let ghost last: int = -1;
    let mut i: usize = 0;
    while i < infos.len()
        invariant
            infos@.len() == old(infos)@.len(),
            i <= infos@.len(),
            forall|k: int|
                0 <= k < i ==> #[trigger] infos@[k] == if stone_hit(old(infos)@[k], proto_id, zone_id) {
                    after_death(old(infos)@[k], spawns@)
                } else {
                    old(infos)@[k]
                },
            forall|k: int| i <= k < infos@.len() ==> #[trigger] infos@[k] == old(infos)@[k],
            -1 <= last < i,
            result is None <==> last == -1,
            last == -1 ==> forall|k: int| 0 <= k < i ==> !stone_hit(#[trigger] old(infos)@[k], proto_id, zone_id),
            last >= 0 ==> stone_hit(old(infos)@[last], proto_id, zone_id) && result == Some(old(infos)@[last].chaos_index)
                && forall|j: int| last < j < i ==> !stone_hit(#[trigger] old(infos)@[j], proto_id, zone_id),
        decreases infos@.len() - i,
    {
        if infos[i].chaos_stone_on && infos[i].zone_id == zone_id && infos[i].chaos_id == proto_id {
            result = Some(infos[i].chaos_index);
            proof {
                last = i as int;
            }
            infos[i].die(spawns);
        }
        i = i + 1;
    }
    result
}

/// Result of the respawn countdown of one stone.
#[derive(Debug, Clone, Copy, PartialEq, Eq, Structural)]
pub enum ChaosStoneTimerResult {
    /// Nothing to do.
    Idle,
    /// Respawn stone (chaos_id, rank, zone_id).
    Respawn(u16, u8, u16),
}

/// The stone's respawn countdown runs.
pub open spec fn counting_down(info: ChaosStoneInfo) -> bool {
    info.chaos_stone_on && info.is_on_res_timer && info.is_chaos_stone_killed
}

/// One second of a stone's respawn countdown: it goes down by one, and at
/// 0 the stone respawns with no bosses and no wave.
pub open spec fn timer_step(info: ChaosStoneInfo) -> ChaosStoneInfo {
    if !counting_down(info) {
        info
    } else if info.spawn_time > 0 {
        ChaosStoneInfo { spawn_time: (info.spawn_time - 1) as u32, ..info }
    } else {
        ChaosStoneInfo {
            is_chaos_stone_killed: false,
            is_on_res_timer: false,
            is_total_killed_monster: false,
            boss_killed_count: 0,
            ..info
        }
    }
}

/// The stone respawns at this second.
pub open spec fn respawns_now(info: ChaosStoneInfo) -> bool {
    counting_down(info) && info.spawn_time == 0
}

/// The respawns of the first `n` stones, in order.
pub open spec fn respawns_of(infos: Seq<ChaosStoneInfo>, n: int) -> Seq<ChaosStoneTimerResult>
    decreases n,
{
    if n <= 0 {
        Seq::empty()
    } else if respawns_now(infos[n - 1]) {
        respawns_of(infos, n - 1).push(
            ChaosStoneTimerResult::Respawn(infos[n - 1].chaos_id, infos[n - 1].rank, infos[n - 1].zone_id),
        )
    } else {
        respawns_of(infos, n - 1)
    }
}

impl ChaosStoneInfo {
    /// One second of this stone's respawn countdown; returns whether it
    /// respawns now.
    pub fn tick(&mut self) -> (r: bool)
        ensures
            r == respawns_now(*old(self)),
            *final(self) == timer_step(*old(self)),
    {
        if !self.chaos_stone_on || !self.is_on_res_timer || !self.is_chaos_stone_killed {
            return false;
        }
        if self.spawn_time > 0 {
            self.spawn_time = self.spawn_time - 1;
            return false;
        }
        self.is_chaos_stone_killed = false;
        self.is_on_res_timer = false;
        self.is_total_killed_monster = false;
        self.boss_killed_count = 0;
        true
    }
}

/// One second of every stone's respawn countdown (see `timer_step`);
/// returns the stones that respawn now, in order.
pub fn respawn_timer_tick(infos: &mut Vec<ChaosStoneInfo>) -> (r: Vec<ChaosStoneTimerResult>)
    ensures
        final(infos)@.len() == old(infos)@.len(),
        forall|k: int| 0 <= k < old(infos)@.len() ==> #[trigger] final(infos)@[k] == timer_step(old(infos)@[k]),
        r@ == respawns_of(old(infos)@, old(infos)@.len() as int),
{
    let mut results: Vec<ChaosStoneTimerResult> = Vec::new();
    let mut i: usize = 0;
    while i < infos.len()
        invariant
            infos@.len() == old(infos)@.len(),
            i <= infos@.len(),
            forall|k: int| 0 <= k < i ==> #[trigger] infos@[k] == timer_step(old(infos)@[k]),
            forall|k: int| i <= k < infos@.len() ==> #[trigger] infos@[k] == old(infos)@[k],
            results@ == respawns_of(old(infos)@, i as int),
        decreases infos@.len() - i,
    {
        let chaos_id = infos[i].chaos_id;
        let rank = infos[i].rank;
        let zone_id = infos[i].zone_id;
        if infos[i].tick() {
            results.push(ChaosStoneTimerResult::Respawn(chaos_id, rank, zone_id));
        }
        i = i + 1;
    }
    results
}

/// The stone is stone `chaos_id` at `rank` in `zone_id`.
pub open spec fn stone_is(info: ChaosStoneInfo, chaos_id: u16, rank: u8, zone_id: u16) -> bool {
    info.chaos_id == chaos_id && info.rank == rank && info.zone_id == zone_id
}

/// The number of the first stone `chaos_id` at `rank` in `zone_id`.
pub fn find_info_index(infos: &Vec<ChaosStoneInfo>, chaos_id: u16, rank: u8, zone_id: u16) -> (r: Option<u8>)
    ensures
        r is None <==> forall|k: int| 0 <= k < infos@.len() ==> !stone_is(#[trigger] infos@[k], chaos_id, rank, zone_id),
        r matches Some(idx) ==> exists|k: int|
            0 <= k < infos@.len() && stone_is(#[trigger] infos@[k], chaos_id, rank, zone_id)
                && infos@[k].chaos_index == idx && forall|j: int|
                0 <= j < k ==> !stone_is(#[trigger] infos@[j], chaos_id, rank, zone_id),
{
    let mut i: usize = 0;
    while i < infos.len()
        invariant
            i <= infos@.len(),
            forall|j: int| 0 <= j < i ==> !stone_is(#[trigger] infos@[j], chaos_id, rank, zone_id),
        decreases infos@.len() - i,
    {
        if infos[i].chaos_id == chaos_id && infos[i].rank == rank && infos[i].zone_id == zone_id {
            return Some(infos[i].chaos_index);
        }
        i = i + 1;
    }
    None
}

/// Position of the stone numbered `chaos_index` (the first such).
pub fn info_position(infos: &Vec<ChaosStoneInfo>, chaos_index: u8) -> (r: Option<usize>)
    ensures
        r is None <==> forall|k: int| 0 <= k < infos@.len() ==> #[trigger] infos@[k].chaos_index != chaos_index,
        r matches Some(k) ==> k < infos@.len() && infos@[k as int].chaos_index == chaos_index
            && forall|j: int| 0 <= j < k ==> #[trigger] infos@[j].chaos_index != chaos_index,
{
    let mut i: usize = 0;
    while i < infos.len()
        invariant
            i <= infos@.len(),
            forall|j: int| 0 <= j < i ==> #[trigger] infos@[j].chaos_index != chaos_index,
        decreases infos@.len() - i,
    {
        if infos[i].chaos_index == chaos_index {
            return Some(i);
        }
        i = i + 1;
    }
    None
}

// ── Bosses ───────────────────────────────────────────────────────────

/// `c + 1`, wrapping past the largest `i16`.
pub open spec fn inc_wrapping(c: i16) -> i16 {
    if c == i16::MAX {
        i16::MIN
    } else {
        (c + 1) as i16
    }
}

/// `c - 1`, wrapping past the smallest `i16`.
pub open spec fn dec_wrapping(c: i16) -> i16 {
    if c == i16::MIN {
        i16::MAX
    } else {
        (c - 1) as i16
    }
}

/// The first empty boss slot at or after `slot` (`MAX_BOSS_IDS` if none).
pub open spec fn next_empty(ids: Seq<u32>, slot: int) -> int
    decreases MAX_BOSS_IDS - slot,
{
    if slot >= MAX_BOSS_IDS || slot < 0 {
        MAX_BOSS_IDS as int
    } else if ids[slot] == 0 {
        slot
    } else {
        next_empty(ids, slot + 1)
    }
}

/// Boss slots and count after registering `npcs` from `slot` on: each
/// boss (up to the first 0) takes the next empty slot and adds one to the
/// count, until the slots run out.
pub open spec fn fill_bosses(ids: Seq<u32>, count: i16, npcs: Seq<u32>, slot: int) -> (Seq<u32>, i16)
    decreases npcs.len(),
{
    if npcs.len() == 0 || npcs[0] == 0 || slot >= MAX_BOSS_IDS {
        (ids, count)
    } else {
        let s2 = next_empty(ids, slot);
        if s2 < MAX_BOSS_IDS {
            fill_bosses(ids.update(s2, npcs[0]), inc_wrapping(count), npcs.drop_first(), s2 + 1)
        } else {
            (ids, count)
        }
    }
}

impl ChaosStoneInfo {
    /// Register the bosses `npc_ids` (runtime IDs, up to the first 0) in
    /// the empty slots, in order, counting each.
    pub fn register_bosses(&mut self, npc_ids: &Vec<u32>)
        requires
            old(self).wf(),
        ensures
            final(self).wf(),
            (final(self).boss_ids@, final(self).boss_killed_count) == fill_bosses(
                old(self).boss_ids@,
                old(self).boss_killed_count,
                npc_ids@,
                0,
            ),
            *final(self) == (ChaosStoneInfo {
                boss_ids: final(self).boss_ids,
                boss_killed_count: final(self).boss_killed_count,
                ..*old(self)
            }),
    {
        let ghost goal = fill_bosses(old(self).boss_ids@, old(self).boss_killed_count, npc_ids@, 0);
        let mut slot: usize = 0;
        let mut j: usize = 0;
        proof {
            assert(npc_ids@.skip(0) =~= npc_ids@);
        }
        while j < npc_ids.len()
            invariant
                self.boss_ids@.len() == MAX_BOSS_IDS,
                j <= npc_ids@.len(),
                slot <= MAX_BOSS_IDS,
                fill_bosses(self.boss_ids@, self.boss_killed_count, npc_ids@.skip(j as int), slot as int)
                    == goal,
                *self == (ChaosStoneInfo {
                    boss_ids: self.boss_ids,
                    boss_killed_count: self.boss_killed_count,
                    ..*old(self)
                }),
            ensures
                self.boss_ids@.len() == MAX_BOSS_IDS,
                (self.boss_ids@, self.boss_killed_count) == goal,
                *self == (ChaosStoneInfo {
                    boss_ids: self.boss_ids,
                    boss_killed_count: self.boss_killed_count,
                    ..*old(self)
                }),
            decreases npc_ids@.len() - j,
        {
            let npc_id = npc_ids[j];
            let ghost rest = npc_ids@.skip(j as int);
            proof {
                assert(rest[0] == npc_id);
                assert(rest.drop_first() =~= npc_ids@.skip(j + 1));
            }
            if npc_id == 0 || slot >= MAX_BOSS_IDS {
                break;
            }
            let ghost start = slot as int;
            let ghost ids0 = self.boss_ids@;
            let ghost count0 = self.boss_killed_count;
            while slot < MAX_BOSS_IDS && self.boss_ids[slot] != 0
                invariant
                    self.boss_ids@ == ids0,
                    self.boss_ids@.len() == MAX_BOSS_IDS,
                    start <= slot <= MAX_BOSS_IDS,
                    next_empty(self.boss_ids@, slot as int) == next_empty(self.boss_ids@, start),
                decreases MAX_BOSS_IDS - slot,
            {
                slot = slot + 1;
            }
            if slot < MAX_BOSS_IDS {
                proof {
                    assert(next_empty(ids0, start) == slot);
                }
                self.boss_ids.set(slot, npc_id);
                self.boss_killed_count = if self.boss_killed_count == i16::MAX {
                    i16::MIN
                } else {
                    self.boss_killed_count + 1
                };
                slot = slot + 1;
                proof {
                    assert(self.boss_ids@ == ids0.update(slot - 1, npc_id));
                    assert(self.boss_killed_count == inc_wrapping(count0));
                }
            } else {
                proof {
                    assert(next_empty(ids0, start) == MAX_BOSS_IDS);
                }
                break;
            }
            j = j + 1;
        }
        proof {
            if j == npc_ids@.len() {
                assert(npc_ids@.skip(j as int).len() == 0);
            }
        }
    }

    /// The boss `npc_id` died: its slot empties and the count goes down by
    /// one; returns whether it was the last boss, which completes the wave.
    /// `npc_id` must hold one of the slots.
    pub fn kill_boss(&mut self, npc_id: u32) -> (r: bool)
        requires
            old(self).wf(),
            exists|i: int| 0 <= i < MAX_BOSS_IDS && #[trigger] old(self).boss_ids@[i] == npc_id,
        ensures
            final(self).wf(),
            ({
                let i = first_slot_of(old(self).boss_ids@, npc_id);
                let c = dec_wrapping(old(self).boss_killed_count);
                &&& r == (c <= 0)
                &&& *final(self) == (ChaosStoneInfo {
                    boss_ids: final(self).boss_ids,
                    boss_killed_count: c,
                    is_total_killed_monster: old(self).is_total_killed_monster || c <= 0,
                    ..*old(self)
                })
                &&& final(self).boss_ids@ == old(self).boss_ids@.update(i, 0)
            }),
    {
        let mut i: usize = 0;
        while i < MAX_BOSS_IDS && self.boss_ids[i] != npc_id
            invariant
                self.boss_ids@.len() == MAX_BOSS_IDS,
                i <= MAX_BOSS_IDS,
                *self == *old(self),
                forall|j: int| 0 <= j < i ==> #[trigger] self.boss_ids@[j] != npc_id,
                exists|k: int| 0 <= k < MAX_BOSS_IDS && #[trigger] self.boss_ids@[k] == npc_id,
            decreases MAX_BOSS_IDS - i,
        {
            i = i + 1;
        }
        proof {
            lemma_first_slot_of(self.boss_ids@, npc_id, i as int);
        }
        self.boss_killed_count = if self.boss_killed_count == i16::MIN {
            i16::MAX
        } else {
            self.boss_killed_count - 1
        };
        self.boss_ids.set(i, 0);
        if self.boss_killed_count <= 0 {
            self.is_total_killed_monster = true;
            return true;
        }
        false
    }
}

/// The first slot holding `npc_id`.
pub open spec fn first_slot_of(ids: Seq<u32>, npc_id: u32) -> int {
    choose|i: int|
        0 <= i < ids.len() && ids[i] == npc_id && forall|j: int| 0 <= j < i ==> #[trigger] ids[j] != npc_id
}

/// The first slot holding `npc_id` is the one a scan from the front finds.
proof fn lemma_first_slot_of(ids: Seq<u32>, npc_id: u32, i: int)
    requires
        0 <= i < ids.len(),
        ids[i] == npc_id,
        forall|j: int| 0 <= j < i ==> #[trigger] ids[j] != npc_id,
    ensures
        first_slot_of(ids, npc_id) == i,
{
    let f = first_slot_of(ids, npc_id);
    assert(0 <= f < ids.len() && ids[f] == npc_id && forall|j: int| 0 <= j < f ==> #[trigger] ids[j] != npc_id);
    if f < i {
        assert(ids[f] != npc_id);
    } else if f > i {
        assert(ids[i] != npc_id);
    }
}

/// Register the bosses `npc_ids` spawned for the stone numbered
/// `chaos_index` (see `ChaosStoneInfo::register_bosses`); nothing happens
/// for an unknown number.
pub fn register_spawned_bosses(infos: &mut Vec<ChaosStoneInfo>, chaos_index: u8, npc_ids: &Vec<u32>)
    requires
        all_wf(old(infos)@),
    ensures
        all_wf(final(infos)@),
        final(infos)@.len() == old(infos)@.len(),
        match info_index_spec(old(infos)@, chaos_index) {
            None => final(infos)@ == old(infos)@,
            Some(k) => final(infos)@ == old(infos)@.update(k, final(infos)@[k]) && (
            final(infos)@[k].boss_ids@,
            final(infos)@[k].boss_killed_count,
            ) == fill_bosses(
                old(infos)@[k].boss_ids@,
                old(infos)@[k].boss_killed_count,
                npc_ids@,
                0,
            ) && final(infos)@[k] == (ChaosStoneInfo {
                boss_ids: final(infos)@[k].boss_ids,
                boss_killed_count: final(infos)@[k].boss_killed_count,
                ..old(infos)@[k]
            }),
        },
{
    match info_position(infos, chaos_index) {
        None => {
            proof {
                lemma_info_index_none(old(infos)@, chaos_index);
            }
        },
        Some(k) => {
            proof {
                lemma_info_index_some(old(infos)@, chaos_index, k as int);
            }
            let ghost before = infos@;
            infos[k].register_bosses(npc_ids);
            proof {
                assert(infos@ =~= before.update(k as int, infos@[k as int]));
            }
        },
    }
}

/// Position of the first stone numbered `chaos_index`.
pub open spec fn info_index_spec(infos: Seq<ChaosStoneInfo>, chaos_index: u8) -> Option<int> {
    if exists|k: int| 0 <= k < infos.len() && #[trigger] infos[k].chaos_index == chaos_index {
        Some(
            choose|k: int|
                0 <= k < infos.len() && infos[k].chaos_index == chaos_index && forall|j: int|
                    0 <= j < k ==> #[trigger] infos[j].chaos_index != chaos_index,
        )
    } else {
        None
    }
}

proof fn lemma_info_index_none(infos: Seq<ChaosStoneInfo>, chaos_index: u8)
    requires
        forall|k: int| 0 <= k < infos.len() ==> #[trigger] infos[k].chaos_index != chaos_index,
    ensures
        info_index_spec(infos, chaos_index) is None,
{
}

proof fn lemma_info_index_some(infos: Seq<ChaosStoneInfo>, chaos_index: u8, k: int)
    requires
        0 <= k < infos.len(),
        infos[k].chaos_index == chaos_index,
        forall|j: int| 0 <= j < k ==> #[trigger] infos[j].chaos_index != chaos_index,
    ensures
        info_index_spec(infos, chaos_index) == Some(k),
{
    assert(exists|k: int| 0 <= k < infos.len() && #[trigger] infos[k].chaos_index == chaos_index);
    let f = choose|f: int|
        0 <= f < infos.len() && infos[f].chaos_index == chaos_index && forall|j: int|
            0 <= j < f ==> #[trigger] infos[j].chaos_index != chaos_index;
    if f < k {
        assert(infos[f].chaos_index != chaos_index);
    } else if f > k {
        assert(infos[k].chaos_index != chaos_index);
    }
}

/// The stone tracks boss `npc_id` of `zone_id` in a running wave: it is
/// enabled, destroyed, its wave is not complete, and a slot holds the boss.
pub open spec fn tracks_boss(info: ChaosStoneInfo, npc_id: u32, zone_id: u16) -> bool {
    &&& info.zone_id == zone_id
    &&& info.is_chaos_stone_killed
    &&& info.chaos_stone_on
    &&& !info.is_total_killed_monster
    &&& exists|i: int| 0 <= i < MAX_BOSS_IDS && #[trigger] info.boss_ids@[i] == npc_id
}

/// Whether the stone tracks boss `npc_id` of `zone_id` in a running wave.
fn tracks(info: &ChaosStoneInfo, npc_id: u32, zone_id: u16) -> (r: bool)
    requires
        info.wf(),
    ensures
        r == tracks_boss(*info, npc_id, zone_id),
{
    if info.zone_id != zone_id || !info.is_chaos_stone_killed || !info.chaos_stone_on
        || info.is_total_killed_monster {
        return false;
    }
    let mut i: usize = 0;
    while i < MAX_BOSS_IDS
        invariant
            info.boss_ids@.len() == MAX_BOSS_IDS,
            i <= MAX_BOSS_IDS,
            info.zone_id == zone_id && info.is_chaos_stone_killed && info.chaos_stone_on
                && !info.is_total_killed_monster,
            forall|j: int| 0 <= j < i ==> #[trigger] info.boss_ids@[j] != npc_id,
        decreases MAX_BOSS_IDS - i,
    {
        if info.boss_ids[i] == npc_id {
            assert(info.boss_ids@[i as int] == npc_id);
            return true;
        }
        i = i + 1;
    }
    false
}

/// The summoned boss `npc_id` of `zone_id` died: the first stone tracking
/// it in a running wave loses it (see `ChaosStoneInfo::kill_boss`).
/// Returns whether that completed the stone's wave.
pub fn on_boss_killed(infos: &mut Vec<ChaosStoneInfo>, npc_id: u32, zone_id: u16) -> (r: bool)
    requires
        all_wf(old(infos)@),
    ensures
        all_wf(final(infos)@),
        final(infos)@.len() == old(infos)@.len(),
        (forall|k: int| 0 <= k < old(infos)@.len() ==> !tracks_boss(#[trigger] old(infos)@[k], npc_id, zone_id))
            ==> !r && final(infos)@ == old(infos)@,
        forall|k: int|
            0 <= k < old(infos)@.len() && tracks_boss(#[trigger] old(infos)@[k], npc_id, zone_id) && (
            forall|j: int| 0 <= j < k ==> !tracks_boss(#[trigger] old(infos)@[j], npc_id, zone_id))
                ==> {
                let c = dec_wrapping(old(infos)@[k].boss_killed_count);
                &&& r == (c <= 0)
                &&& final(infos)@ == old(infos)@.update(k, final(infos)@[k])
                &&& final(infos)@[k] == (ChaosStoneInfo {
                    boss_ids: final(infos)@[k].boss_ids,
                    boss_killed_count: c,
                    is_total_killed_monster: c <= 0,
                    ..old(infos)@[k]
                })
                &&& final(infos)@[k].boss_ids@ == old(infos)@[k].boss_ids@.update(
                    first_slot_of(old(infos)@[k].boss_ids@, npc_id),
                    0,
                )
            },
{
    let mut i: usize = 0;
    while i < infos.len()
        invariant
            infos@ == old(infos)@,
            all_wf(infos@),
            i <= infos@.len(),
            forall|j: int| 0 <= j < i ==> !tracks_boss(#[trigger] old(infos)@[j], npc_id, zone_id),
        decreases infos@.len() - i,
    {
        if tracks(&infos[i], npc_id, zone_id) {
            let ghost before = infos@;
            let done = infos[i].kill_boss(npc_id);
            proof {
                assert(infos@ =~= before.update(i as int, infos@[i as int]));
                assert forall|k: int|
                    0 <= k < old(infos)@.len() && tracks_boss(#[trigger] old(infos)@[k], npc_id, zone_id) && (
                    forall|j: int| 0 <= j < k ==> !tracks_boss(#[trigger] old(infos)@[j], npc_id, zone_id))
                    implies k == i by {
                    if k < i {
                    } else if k > i {
                        assert(tracks_boss(old(infos)@[i as int], npc_id, zone_id));
                    }
                }
            }
            return done;
        }
        i = i + 1;
    }
    false
}

// ── Summons ──────────────────────────────────────────────────────────

/// The summon row belongs to `zone_id` and monster family `family`.
pub open spec fn summon_in(s: ChaosStoneSummonListRow, zone_id: u16, family: u8) -> bool {
    s.zone_id as u16 == zone_id && s.monster_spawn_family as u8 == family
}

/// The monsters (NPC templates) of family `family` in `zone_id`, in order.
pub open spec fn family_monsters(list: Seq<ChaosStoneSummonListRow>, zone_id: u16, family: u8) -> Seq<i16>
    decreases list.len(),
{
    if list.len() == 0 {
        Seq::empty()
    } else if summon_in(list.last(), zone_id, family) {
        family_monsters(list.drop_last(), zone_id, family).push(list.last().sid)
    } else {
        family_monsters(list.drop_last(), zone_id, family)
    }
}

/// The zone has a stage for monster family `family`.
pub open spec fn spec_family_exists(stages: Seq<ChaosStoneSummonStageRow>, zone_id: u16, family: u8) -> bool {
    exists|k: int|
        0 <= k < stages.len() && #[trigger] stages[k].zone_id as u16 == zone_id && stages[k].index_family as u8
            == family
}

/// Whether the zone has a stage for monster family `family`.
pub fn family_exists_for_zone(stages: &Vec<ChaosStoneSummonStageRow>, zone_id: u16, family: u8) -> (r: bool)
    ensures
        r == spec_family_exists(stages@, zone_id, family),
{
    let mut i: usize = 0;
    while i < stages.len()
        invariant
            i <= stages@.len(),
            forall|j: int|
                0 <= j < i ==> !(#[trigger] stages@[j].zone_id as u16 == zone_id && stages@[j].index_family as u8
                    == family),
        decreases stages@.len() - i,
    {
        if stages[i].zone_id as u16 == zone_id && stages[i].index_family as u8 == family {
            return true;
        }
        i = i + 1;
    }
    false
}

/// The family summoned after `family`: the next one when the zone has a
/// stage for it, else 1.
pub open spec fn following_family(stages: Seq<ChaosStoneSummonStageRow>, zone_id: u16, family: u8) -> u8 {
    let next = if family == 255 {
        0u8
    } else {
        (family + 1) as u8
    };
    if spec_family_exists(stages, zone_id, next) {
        next
    } else {
        1
    }
}

/// The monsters summoned when the stone numbered `chaos_index` dies: the
/// monsters of its current family in its zone, in order; its family then
/// moves on (see `following_family`). Nothing happens for an unknown
/// number.
pub fn death_respawn_monsters(
    infos: &mut Vec<ChaosStoneInfo>,
    summon_list: &Vec<ChaosStoneSummonListRow>,
    stages: &Vec<ChaosStoneSummonStageRow>,
    chaos_index: u8,
) -> (r: Vec<i16>)
    ensures
        final(infos)@.len() == old(infos)@.len(),
        match info_index_spec(old(infos)@, chaos_index) {
            None => final(infos)@ == old(infos)@ && r@.len() == 0,
            Some(k) => {
                let info = old(infos)@[k];
                &&& r@ == family_monsters(summon_list@, info.zone_id, info.monster_family)
                &&& final(infos)@ == old(infos)@.update(
                    k,
                    ChaosStoneInfo {
                        monster_family: following_family(stages@, info.zone_id, info.monster_family),
                        ..info
                    },
                )
            },
        },
{
    let k = match info_position(infos, chaos_index) {
        None => {
            proof {
                lemma_info_index_none(old(infos)@, chaos_index);
            }
            return Vec::new();
        },
        Some(k) => k,
    };
    proof {
        lemma_info_index_some(old(infos)@, chaos_index, k as int);
    }
    let zone_id = infos[k].zone_id;
    let family = infos[k].monster_family;
    let mut monsters: Vec<i16> = Vec::new();
    let mut i: usize = 0;
    while i < summon_list.len()
        invariant
            i <= summon_list@.len(),
            monsters@ == family_monsters(summon_list@.take(i as int), zone_id, family),
        decreases summon_list@.len() - i,
    {
        let row = summon_list[i];
        proof {
            assert(summon_list@.take(i + 1).drop_last() =~= summon_list@.take(i as int));
            assert(summon_list@.take(i + 1).last() == row);
        }
        if row.zone_id as u16 == zone_id && row.monster_spawn_family as u8 == family {
            monsters.push(row.sid);
        }
        i = i + 1;
    }
    proof {
        assert(summon_list@.take(summon_list@.len() as int) =~= summon_list@);
    }
    let next_family = if family == 255 {
        0
    } else {
        family + 1
    };
    let new_family = if family_exists_for_zone(stages, zone_id, next_family) {
        next_family
    } else {
        1
    };
    let ghost before = infos@;
    infos[k].set_monster_family(new_family);
    proof {
        assert(infos@ =~= before.update(k as int, infos@[k as int]));
    }
    monsters
}

impl ChaosStoneInfo {
    /// Set the family summoned at the next death.
    pub fn set_monster_family(&mut self, family: u8)
        ensures
            *final(self) == (ChaosStoneInfo { monster_family: family, ..*old(self) }),
    {
        self.monster_family = family;
    }
}

// ── Rewards and special stones ───────────────────────────────────────

/// The reward items of a rank row: (item, count, expiration) for each of
/// its five item columns whose item is not 0, in column order.
pub open spec fn reward_items(r: EventChaosRewardRow) -> Seq<(i32, i32, i32)> {
    let s1 = if r.item_id1 != 0 {
        seq![(r.item_id1, r.item_count1, r.item_expiration1)]
    } else {
        Seq::empty()
    };
    let s2 = if r.item_id2 != 0 {
        s1.push((r.item_id2, r.item_count2, r.item_expiration2))
    } else {
        s1
    };
    let s3 = if r.item_id3 != 0 {
        s2.push((r.item_id3, r.item_count3, r.item_expiration3))
    } else {
        s2
    };
    let s4 = if r.item_id4 != 0 {
        s3.push((r.item_id4, r.item_count4, r.item_expiration4))
    } else {
        s3
    };
    if r.item_id5 != 0 {
        s4.push((r.item_id5, r.item_count5, r.item_expiration5))
    } else {
        s4
    }
}

/// The reward items of a rank row.
pub fn collect_reward_items(reward: &EventChaosRewardRow) -> (r: Vec<(i32, i32, i32)>)
    ensures
        r@ == reward_items(*reward),
{
    let mut items: Vec<(i32, i32, i32)> = Vec::new();
    if reward.item_id1 != 0 {
        items.push((reward.item_id1, reward.item_count1, reward.item_expiration1));
    }
    if reward.item_id2 != 0 {
        items.push((reward.item_id2, reward.item_count2, reward.item_expiration2));
    }
    if reward.item_id3 != 0 {
        items.push((reward.item_id3, reward.item_count3, reward.item_expiration3));
    }
    if reward.item_id4 != 0 {
        items.push((reward.item_id4, reward.item_count4, reward.item_expiration4));
    }
    if reward.item_id5 != 0 {
        items.push((reward.item_id5, reward.item_count5, reward.item_expiration5));
    }
    proof {
        assert(items@ =~= reward_items(*reward));
    }
    items
}

/// The reward row of `rank`: the first with that rank.
pub fn get_reward_by_rank(rewards: &Vec<EventChaosRewardRow>, rank: i16) -> (r: Option<&EventChaosRewardRow>)
    ensures
        r is None <==> forall|k: int| 0 <= k < rewards@.len() ==> #[trigger] rewards@[k].rank_id != rank,
        r matches Some(x) ==> exists|k: int|
            0 <= k < rewards@.len() && rewards@[k] == *x && x.rank_id == rank && forall|j: int|
                0 <= j < k ==> #[trigger] rewards@[j].rank_id != rank,
{
    let mut i: usize = 0;
    while i < rewards.len()
        invariant
            i <= rewards@.len(),
            forall|j: int| 0 <= j < i ==> #[trigger] rewards@[j].rank_id != rank,
        decreases rewards@.len() - i,
    {
        if rewards[i].rank_id == rank {
            return Some(&rewards[i]);
        }
        i = i + 1;
    }
    None
}

/// The special stone row is an enabled summon of stone `proto_id` in
/// `zone_id`.
pub open spec fn special_matches(s: SpecialStoneRow, proto_id: u16, zone_id: u16) -> bool {
    s.main_npc as u16 == proto_id && s.zone_id as u16 == zone_id && s.status == 1
}

/// The (monster, count) summons of stone `proto_id` in `zone_id`, in order.
pub open spec fn special_summons(stones: Seq<SpecialStoneRow>, proto_id: u16, zone_id: u16) -> Seq<(u16, u16)>
    decreases stones.len(),
{
    if stones.len() == 0 {
        Seq::empty()
    } else if special_matches(stones.last(), proto_id, zone_id) {
        special_summons(stones.drop_last(), proto_id, zone_id).push(
            (stones.last().summon_npc as u16, stones.last().summon_count as u16),
        )
    } else {
        special_summons(stones.drop_last(), proto_id, zone_id)
    }
}

/// A special stone `proto_id` died in `zone_id`: one of its summons is
/// drawn, the only one when there is one, else the one at `seed` modulo
/// their number (the caller passes a number that varies between calls).
/// `None` when the stone has no summon.
pub fn on_special_stone_death(
    stones: &Vec<SpecialStoneRow>,
    proto_id: u16,
    zone_id: u16,
    seed: usize,
) -> (r: Option<(u16, u16)>)
    ensures
        ({
            let m = special_summons(stones@, proto_id, zone_id);
            if m.len() == 0 {
                r is None
            } else {
                r == Some(
                    m[if m.len() == 1 {
                        0
                    } else {
                        (seed as int) % (m.len() as int)
                    }],
                )
            }
        }),
{
    let mut matches: Vec<(u16, u16)> = Vec::new();
    let mut i: usize = 0;
    while i < stones.len()
        invariant
            i <= stones@.len(),
            matches@ == special_summons(stones@.take(i as int), proto_id, zone_id),
        decreases stones@.len() - i,
    {
        proof {
            assert(stones@.take(i + 1).drop_last() =~= stones@.take(i as int));
            assert(stones@.take(i + 1).last() == stones@[i as int]);
        }
        let s = &stones[i];
        if s.main_npc as u16 == proto_id && s.zone_id as u16 == zone_id && s.status == 1 {
            matches.push((s.summon_npc as u16, s.summon_count as u16));
        }
        i = i + 1;
    }
    proof {
        assert(stones@.take(stones@.len() as int) =~= stones@);
    }
    if matches.len() == 0 {
        return None;
    }
    let idx = if matches.len() == 1 {
        0
    } else {
        seed % matches.len()
    };
    Some(matches[idx])
}

// ── Laws ─────────────────────────────────────────────────────────────

/// A destroyed stone waits its full respawn time: its countdown starts at
/// `CHAOS_STONE_RESPAWN_TIME`, each second takes one off while the stone
/// stays down, and at 0 it respawns with no wave left.
pub proof fn lemma_destroyed_stone_respawns(info: ChaosStoneInfo, spawns: Seq<ChaosStoneSpawnRow>)
    requires
        info.chaos_stone_on,
    ensures
        counting_down(after_death(info, spawns)),
        after_death(info, spawns).spawn_time == CHAOS_STONE_RESPAWN_TIME,
        forall|s: ChaosStoneInfo|
            counting_down(s) && s.spawn_time > 0 ==> counting_down(#[trigger] timer_step(s))
                && timer_step(s).spawn_time == s.spawn_time - 1,
        forall|s: ChaosStoneInfo|
            #[trigger] respawns_now(s) ==> !timer_step(s).is_chaos_stone_killed && !counting_down(timer_step(s))
                && timer_step(s).boss_killed_count == 0,
{
}

/// A destroyed stone moves up one rank when a spawn row exists for that
/// rank, and otherwise starts over at rank 1.
pub proof fn lemma_rank_progression(info: ChaosStoneInfo, spawns: Seq<ChaosStoneSpawnRow>)
    ensures
        after_death(info, spawns).rank == next_rank(info.rank) || after_death(info, spawns).rank == 1,
        has_spawn(spawns, info.chaos_id, next_rank(info.rank), info.zone_id) ==> after_death(info, spawns).rank
            == next_rank(info.rank),
{
}

} // verus!
