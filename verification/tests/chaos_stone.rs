use ko_game::chaos_stone::{
    collect_reward_items, death_respawn_monsters, family_exists_for_zone, find_info_index,
    find_spawn_index, get_respawn_data, get_reward_by_rank, load_chaos_stones, on_boss_killed,
    on_chaos_stone_death, on_special_stone_death, register_spawned_bosses, respawn_timer_tick,
    ChaosStoneInfo, ChaosStoneSpawnRow, ChaosStoneSummonListRow, ChaosStoneSummonStageRow,
    ChaosStoneTimerResult, EventChaosRewardRow, SpecialStoneRow, CHAOS_STONE_MONSTER_LIVE_TIME,
    CHAOS_STONE_MONSTER_RESPAWN_RADIUS, CHAOS_STONE_RESPAWN_TIME, MAX_BOSS_IDS,
};

fn spawn(s_index: i16, zone_id: i16, is_open: bool, rank: i16, chaos_id: i16, x: i16, z: i16, t: i16) -> ChaosStoneSpawnRow {
    ChaosStoneSpawnRow {
        s_index,
        zone_id,
        is_open,
        rank,
        chaos_id,
        count: 1,
        spawn_x: x,
        spawn_z: z,
        spawn_time: t,
        direction: 0,
        radius_range: 0,
    }
}

fn make_spawns() -> Vec<ChaosStoneSpawnRow> {
    vec![
        spawn(1, 71, true, 1, 8945, 1017, 948, 1),
        spawn(2, 71, true, 2, 8945, 971, 1007, 3),
        spawn(3, 71, true, 3, 8945, 1012, 1055, 5),
        spawn(4, 71, true, 4, 8945, 1046, 1006, 7),
        spawn(5, 72, true, 1, 8946, 524, 542, 1),
        spawn(6, 72, true, 2, 8946, 520, 511, 1),
        spawn(9, 73, false, 1, 8947, 0, 0, 30),
    ]
}

fn summon(n_index: i16, zone_id: i16, sid: i16, family: i16) -> ChaosStoneSummonListRow {
    ChaosStoneSummonListRow { n_index, zone_id, sid, monster_spawn_family: family }
}

fn make_summon_list() -> Vec<ChaosStoneSummonListRow> {
    vec![
        summon(1, 71, 8254, 1),
        summon(2, 71, 8915, 1),
        summon(3, 71, 8907, 1),
        summon(7, 71, 8253, 2),
        summon(8, 71, 8260, 2),
        summon(13, 71, 8255, 3),
    ]
}

fn make_stages() -> Vec<ChaosStoneSummonStageRow> {
    vec![
        ChaosStoneSummonStageRow { n_index: 1, zone_id: 71, index_family: 1 },
        ChaosStoneSummonStageRow { n_index: 2, zone_id: 71, index_family: 2 },
        ChaosStoneSummonStageRow { n_index: 3, zone_id: 71, index_family: 3 },
        ChaosStoneSummonStageRow { n_index: 4, zone_id: 72, index_family: 1 },
        ChaosStoneSummonStageRow { n_index: 5, zone_id: 72, index_family: 2 },
    ]
}

fn reward(rank_id: i16, items: [(i32, i32); 5], experience: i32, loyalty: i32, cash: i32, noah: i32) -> EventChaosRewardRow {
    EventChaosRewardRow {
        rank_id,
        item_id1: items[0].0,
        item_count1: items[0].1,
        item_expiration1: 0,
        item_id2: items[1].0,
        item_count2: items[1].1,
        item_expiration2: 0,
        item_id3: items[2].0,
        item_count3: items[2].1,
        item_expiration3: 0,
        item_id4: items[3].0,
        item_count4: items[3].1,
        item_expiration4: 0,
        item_id5: items[4].0,
        item_count5: items[4].1,
        item_expiration5: 0,
        experience,
        loyalty,
        cash,
        noah,
    }
}

fn make_rewards() -> Vec<EventChaosRewardRow> {
    vec![
        reward(
            1,
            [(900017000, 3), (389196000, 50), (389197000, 50), (389198000, 50), (0, 0)],
            250000000,
            2000,
            150,
            10000000,
        ),
        reward(2, [(900017000, 2), (389196000, 25), (0, 0), (0, 0), (0, 0)], 200000000, 1500, 100, 10000000),
        reward(12, [(389301000, 1), (0, 0), (0, 0), (0, 0), (0, 0)], 25000000, 100, 0, 10000000),
    ]
}

fn special(n_index: i16, zone_id: i16, main_npc: i16, name: &str, summon_npc: i16, summon_count: i16, status: i16) -> SpecialStoneRow {
    SpecialStoneRow { n_index, zone_id, main_npc, monster_name: name.to_string(), summon_npc, summon_count, status }
}

fn make_special_stones() -> Vec<SpecialStoneRow> {
    vec![
        special(1, 71, 8999, "Werewolf", 8100, 2, 1),
        special(2, 71, 8999, "Skeleton", 8101, 3, 1),
        special(3, 72, 8999, "Orc", 8102, 1, 1),
        special(4, 71, 9000, "Boss", 8200, 1, 0),
    ]
}

#[test]
fn test_load_chaos_stones_creates_entries_for_rank1() {
    let spawns = make_spawns();
    let infos = load_chaos_stones(&spawns);
    assert_eq!(infos.len(), 3);

    let info1 = &infos[0];
    assert_eq!(info1.chaos_index, 1);
    assert_eq!(info1.chaos_id, 8945);
    assert_eq!(info1.zone_id, 71);
    assert!(info1.chaos_stone_on);

    let info2 = &infos[1];
    assert_eq!(info2.chaos_index, 2);
    assert_eq!(info2.chaos_id, 8946);
    assert_eq!(info2.zone_id, 72);
    assert!(info2.chaos_stone_on);

    let info3 = &infos[2];
    assert_eq!(info3.chaos_index, 3);
    assert_eq!(info3.chaos_id, 8947);
    assert!(!info3.chaos_stone_on);
}

#[test]
fn test_load_chaos_stones_skips_non_rank1() {
    let spawns = vec![spawn(2, 71, true, 2, 8945, 971, 1007, 3)];
    let infos = load_chaos_stones(&spawns);
    assert_eq!(infos.len(), 0);
}

#[test]
fn test_load_chaos_stones_max_50() {
    let spawns: Vec<ChaosStoneSpawnRow> = (0..60)
        .map(|i| spawn(i, 71, true, 1, 8900 + i, 100, 100, 1))
        .collect();
    let infos = load_chaos_stones(&spawns);
    assert_eq!(infos.len(), 50);
}

#[test]
fn test_chaos_stone_info_new_defaults() {
    let info = ChaosStoneInfo::new();
    assert_eq!(info.chaos_index, 0);
    assert_eq!(info.rank, 1);
    assert_eq!(info.spawn_time, CHAOS_STONE_RESPAWN_TIME);
    assert!(!info.is_chaos_stone_killed);
    assert!(!info.chaos_stone_on);
}

#[test]
fn test_chaos_stone_info_reset() {
    let mut info = ChaosStoneInfo::new();
    info.chaos_index = 5;
    info.rank = 3;
    info.is_chaos_stone_killed = true;
    info.chaos_stone_on = true;
    info.boss_ids[0] = 100;

    info.reset();

    assert_eq!(info.chaos_index, 0);
    assert_eq!(info.rank, 1);
    assert!(!info.is_chaos_stone_killed);
    assert!(!info.chaos_stone_on);
    assert_eq!(info.boss_ids[0], 0);
}

#[test]
fn test_chaos_stone_info_default() {
    let info = ChaosStoneInfo::default();
    assert_eq!(info.rank, 1);
}

#[test]
fn test_find_info_index_found() {
    let spawns = make_spawns();
    let infos = load_chaos_stones(&spawns);
    let idx = find_info_index(&infos, 8945, 1, 71);
    assert!(idx.is_some());
    assert_eq!(idx.unwrap(), 1);
}

#[test]
fn test_find_info_index_not_found() {
    let spawns = make_spawns();
    let infos = load_chaos_stones(&spawns);
    let idx = find_info_index(&infos, 9999, 1, 71);
    assert!(idx.is_none());
}

#[test]
fn test_find_spawn_index_found() {
    let spawns = make_spawns();
    let idx = find_spawn_index(&spawns, 8945, 2, 71);
    assert!(idx.is_some());
    assert_eq!(spawns[idx.unwrap()].s_index, 2);
}

#[test]
fn test_find_spawn_index_closed() {
    let spawns = make_spawns();
    let idx = find_spawn_index(&spawns, 8947, 1, 73);
    assert!(idx.is_none());
}

#[test]
fn test_find_spawn_index_not_found() {
    let spawns = make_spawns();
    let idx = find_spawn_index(&spawns, 8945, 99, 71);
    assert!(idx.is_none());
}

#[test]
fn test_on_chaos_stone_death_advances_rank() {
    let spawns = make_spawns();
    let mut infos = load_chaos_stones(&spawns);
    let result = on_chaos_stone_death(&mut infos, &spawns, 8945, 71);
    assert!(result.is_some());
    let info = &infos[0];
    assert_eq!(info.rank, 2);
    assert!(info.is_chaos_stone_killed);
    assert!(info.is_on_res_timer);
}

#[test]
fn test_on_chaos_stone_death_wraps_rank() {
    let spawns = make_spawns();
    let mut infos = load_chaos_stones(&spawns);
    infos[0].rank = 4;
    let result = on_chaos_stone_death(&mut infos, &spawns, 8945, 71);
    assert!(result.is_some());
    assert_eq!(infos[0].rank, 1);
}

#[test]
fn test_on_chaos_stone_death_disabled_stone() {
    let spawns = make_spawns();
    let mut infos = load_chaos_stones(&spawns);
    let result = on_chaos_stone_death(&mut infos, &spawns, 8947, 73);
    assert!(result.is_none());
}

#[test]
fn test_on_chaos_stone_death_wrong_zone() {
    let spawns = make_spawns();
    let mut infos = load_chaos_stones(&spawns);
    let result = on_chaos_stone_death(&mut infos, &spawns, 8945, 72);
    assert!(result.is_none());
}

#[test]
fn test_death_respawn_monsters_returns_family_monsters() {
    let spawns = make_spawns();
    let mut infos = load_chaos_stones(&spawns);
    let summon_list = make_summon_list();
    let stages = make_stages();
    let monsters = death_respawn_monsters(&mut infos, &summon_list, &stages, 1);
    assert_eq!(monsters.len(), 3);
    assert!(monsters.contains(&8254));
    assert!(monsters.contains(&8915));
    assert!(monsters.contains(&8907));
    assert_eq!(infos[0].monster_family, 2);
}

#[test]
fn test_death_respawn_monsters_family_wraps() {
    let spawns = make_spawns();
    let mut infos = load_chaos_stones(&spawns);
    let summon_list = make_summon_list();
    let stages = make_stages();
    infos[0].monster_family = 3;
    let monsters = death_respawn_monsters(&mut infos, &summon_list, &stages, 1);
    assert_eq!(monsters.len(), 1);
    assert_eq!(infos[0].monster_family, 1);
}

#[test]
fn test_death_respawn_monsters_invalid_index() {
    let mut infos: Vec<ChaosStoneInfo> = Vec::new();
    let summon_list = make_summon_list();
    let stages = make_stages();
    let monsters = death_respawn_monsters(&mut infos, &summon_list, &stages, 99);
    assert!(monsters.is_empty());
}

#[test]
fn test_family_exists_for_zone_found() {
    let stages = make_stages();
    assert!(family_exists_for_zone(&stages, 71, 1));
    assert!(family_exists_for_zone(&stages, 71, 2));
    assert!(family_exists_for_zone(&stages, 71, 3));
    assert!(family_exists_for_zone(&stages, 72, 1));
}

#[test]
fn test_family_exists_for_zone_not_found() {
    let stages = make_stages();
    assert!(!family_exists_for_zone(&stages, 71, 4));
    assert!(!family_exists_for_zone(&stages, 73, 1));
    assert!(!family_exists_for_zone(&stages, 99, 1));
}

#[test]
fn test_on_boss_killed_decrements() {
    let spawns = make_spawns();
    let mut infos = load_chaos_stones(&spawns);
    infos[0].is_chaos_stone_killed = true;
    infos[0].boss_ids[0] = 100;
    infos[0].boss_ids[1] = 101;
    infos[0].boss_killed_count = 2;
    let all_dead = on_boss_killed(&mut infos, 100, 71);
    assert!(!all_dead);
    assert_eq!(infos[0].boss_killed_count, 1);
    assert_eq!(infos[0].boss_ids[0], 0);
}

#[test]
fn test_on_boss_killed_last_boss() {
    let spawns = make_spawns();
    let mut infos = load_chaos_stones(&spawns);
    infos[0].is_chaos_stone_killed = true;
    infos[0].boss_ids[0] = 100;
    infos[0].boss_killed_count = 1;
    let all_dead = on_boss_killed(&mut infos, 100, 71);
    assert!(all_dead);
    assert!(infos[0].is_total_killed_monster);
}

#[test]
fn test_on_boss_killed_no_match() {
    let spawns = make_spawns();
    let mut infos = load_chaos_stones(&spawns);
    infos[0].is_chaos_stone_killed = true;
    infos[0].boss_ids[0] = 100;
    infos[0].boss_killed_count = 1;
    let all_dead = on_boss_killed(&mut infos, 999, 71);
    assert!(!all_dead);
    assert_eq!(infos[0].boss_killed_count, 1);
}

#[test]
fn test_on_boss_killed_stone_not_killed() {
    let spawns = make_spawns();
    let mut infos = load_chaos_stones(&spawns);
    infos[0].boss_ids[0] = 100;
    infos[0].boss_killed_count = 1;
    let all_dead = on_boss_killed(&mut infos, 100, 71);
    assert!(!all_dead);
}

#[test]
fn test_respawn_timer_tick_decrements() {
    let spawns = make_spawns();
    let mut infos = load_chaos_stones(&spawns);
    infos[0].is_chaos_stone_killed = true;
    infos[0].is_on_res_timer = true;
    infos[0].spawn_time = 5;
    let results = respawn_timer_tick(&mut infos);
    assert!(results.is_empty());
    assert_eq!(infos[0].spawn_time, 4);
}

#[test]
fn test_respawn_timer_tick_triggers_respawn() {
    let spawns = make_spawns();
    let mut infos = load_chaos_stones(&spawns);
    infos[0].is_chaos_stone_killed = true;
    infos[0].is_on_res_timer = true;
    infos[0].spawn_time = 0;
    let results = respawn_timer_tick(&mut infos);
    assert_eq!(results.len(), 1);
    assert_eq!(results[0], ChaosStoneTimerResult::Respawn(8945, 1, 71));
    assert!(!infos[0].is_chaos_stone_killed);
    assert!(!infos[0].is_on_res_timer);
}

#[test]
fn test_respawn_timer_tick_skips_disabled() {
    let spawns = make_spawns();
    let mut infos = load_chaos_stones(&spawns);
    infos[2].is_chaos_stone_killed = true;
    infos[2].is_on_res_timer = true;
    infos[2].spawn_time = 0;
    let results = respawn_timer_tick(&mut infos);
    for r in &results {
        if let ChaosStoneTimerResult::Respawn(_, _, zone) = r {
            assert_ne!(*zone, 73);
        }
    }
}

#[test]
fn test_respawn_timer_tick_idle_when_not_killed() {
    let spawns = make_spawns();
    let mut infos = load_chaos_stones(&spawns);
    let results = respawn_timer_tick(&mut infos);
    assert!(results.is_empty());
}

#[test]
fn test_get_respawn_data_found() {
    let spawns = make_spawns();
    let data = get_respawn_data(&spawns, 8945, 1, 71);
    assert!(data.is_some());
    assert_eq!(data.unwrap().spawn_x, 1017);
}

#[test]
fn test_get_respawn_data_not_found() {
    let spawns = make_spawns();
    let data = get_respawn_data(&spawns, 9999, 1, 71);
    assert!(data.is_none());
}

#[test]
fn test_get_respawn_data_closed_spawn() {
    let spawns = make_spawns();
    let data = get_respawn_data(&spawns, 8947, 1, 73);
    assert!(data.is_none());
}

#[test]
fn test_collect_reward_items_full() {
    let rewards = make_rewards();
    let items = collect_reward_items(&rewards[0]);
    assert_eq!(items.len(), 4);
    assert_eq!(items[0], (900017000, 3, 0));
    assert_eq!(items[1], (389196000, 50, 0));
    assert_eq!(items[2], (389197000, 50, 0));
    assert_eq!(items[3], (389198000, 50, 0));
}

#[test]
fn test_collect_reward_items_partial() {
    let rewards = make_rewards();
    let items = collect_reward_items(&rewards[1]);
    assert_eq!(items.len(), 2);
}

#[test]
fn test_collect_reward_items_single() {
    let rewards = make_rewards();
    let items = collect_reward_items(&rewards[2]);
    assert_eq!(items.len(), 1);
    assert_eq!(items[0], (389301000, 1, 0));
}

#[test]
fn test_get_reward_by_rank_found() {
    let rewards = make_rewards();
    let r = get_reward_by_rank(&rewards, 1);
    assert!(r.is_some());
    assert_eq!(r.unwrap().experience, 250000000);
}

#[test]
fn test_get_reward_by_rank_not_found() {
    let rewards = make_rewards();
    let r = get_reward_by_rank(&rewards, 99);
    assert!(r.is_none());
}

#[test]
fn test_register_spawned_bosses_stores_ids() {
    let spawns = make_spawns();
    let mut infos = load_chaos_stones(&spawns);
    infos[0].is_chaos_stone_killed = true;
    let npc_ids = vec![10042, 10043, 10044];
    register_spawned_bosses(&mut infos, 1, &npc_ids);
    assert_eq!(infos[0].boss_ids[0], 10042);
    assert_eq!(infos[0].boss_ids[1], 10043);
    assert_eq!(infos[0].boss_ids[2], 10044);
    assert_eq!(infos[0].boss_killed_count, 3);
}

#[test]
fn test_register_spawned_bosses_max_10() {
    let spawns = make_spawns();
    let mut infos = load_chaos_stones(&spawns);
    let npc_ids: Vec<u32> = (10001..=10015).collect();
    register_spawned_bosses(&mut infos, 1, &npc_ids);
    assert_eq!(infos[0].boss_killed_count, 10);
    assert_eq!(infos[0].boss_ids[9], 10010);
}

#[test]
fn test_register_spawned_bosses_invalid_index() {
    let mut infos: Vec<ChaosStoneInfo> = Vec::new();
    register_spawned_bosses(&mut infos, 99, &vec![10001, 10002]);
    assert!(infos.is_empty());
}

#[test]
fn test_register_and_kill_full_flow() {
    let spawns = make_spawns();
    let mut infos = load_chaos_stones(&spawns);
    infos[0].is_chaos_stone_killed = true;
    register_spawned_bosses(&mut infos, 1, &vec![10042, 10043, 10044]);
    assert_eq!(infos[0].boss_killed_count, 3);
    assert!(!on_boss_killed(&mut infos, 10042, 71));
    assert_eq!(infos[0].boss_killed_count, 2);
    assert!(!on_boss_killed(&mut infos, 10043, 71));
    assert_eq!(infos[0].boss_killed_count, 1);
    assert!(on_boss_killed(&mut infos, 10044, 71));
    assert!(infos[0].is_total_killed_monster);
}

#[test]
fn test_special_stone_death_returns_match() {
    let stones = make_special_stones();
    for seed in 0..4usize {
        let result = on_special_stone_death(&stones, 8999, 71, seed);
        assert!(result.is_some());
        let (npc, count) = result.unwrap();
        assert!(npc == 8100 || npc == 8101);
        assert!(count == 2 || count == 3);
    }
    assert_eq!(on_special_stone_death(&stones, 8999, 71, 0), Some((8100, 2)));
    assert_eq!(on_special_stone_death(&stones, 8999, 71, 3), Some((8101, 3)));
}

#[test]
fn test_special_stone_death_wrong_zone() {
    let stones = make_special_stones();
    let result = on_special_stone_death(&stones, 8999, 73, 0);
    assert!(result.is_none());
}

#[test]
fn test_special_stone_death_wrong_proto() {
    let stones = make_special_stones();
    let result = on_special_stone_death(&stones, 1234, 71, 0);
    assert!(result.is_none());
}

#[test]
fn test_special_stone_death_disabled_entry() {
    let stones = make_special_stones();
    let result = on_special_stone_death(&stones, 9000, 71, 0);
    assert!(result.is_none());
}

#[test]
fn test_special_stone_death_single_match() {
    let stones = make_special_stones();
    let result = on_special_stone_death(&stones, 8999, 72, 7);
    assert!(result.is_some());
    let (npc, count) = result.unwrap();
    assert_eq!(npc, 8102);
    assert_eq!(count, 1);
}

#[test]
fn chaos_stone_test_constants() {
    assert_eq!(CHAOS_STONE_RESPAWN_TIME, 1800);
    assert_eq!(CHAOS_STONE_MONSTER_RESPAWN_RADIUS, 20);
    assert_eq!(CHAOS_STONE_MONSTER_LIVE_TIME, 900);
    assert_eq!(MAX_BOSS_IDS, 10);
}

// ── Further cases ────────────────────────────────────────────────────

#[test]
fn register_fills_empty_slots_and_stops_at_zero() {
    let spawns = make_spawns();
    let mut infos = load_chaos_stones(&spawns);
    infos[0].boss_ids[0] = 5;
    infos[0].boss_ids[2] = 6;
    infos[0].boss_killed_count = 2;
    register_spawned_bosses(&mut infos, 1, &vec![7, 8, 0, 9]);
    assert_eq!(&infos[0].boss_ids[0..4], &[5, 7, 6, 8]);
    assert_eq!(infos[0].boss_ids[4], 0);
    assert_eq!(infos[0].boss_killed_count, 4);
}

#[test]
fn destroyed_stone_counts_down_and_respawns() {
    let spawns = make_spawns();
    let mut infos = load_chaos_stones(&spawns);
    assert_eq!(on_chaos_stone_death(&mut infos, &spawns, 8946, 72), Some(2));
    assert_eq!(infos[1].rank, 2);
    assert_eq!(infos[1].spawn_time, CHAOS_STONE_RESPAWN_TIME);
    for _ in 0..CHAOS_STONE_RESPAWN_TIME {
        assert!(respawn_timer_tick(&mut infos).is_empty());
    }
    assert_eq!(respawn_timer_tick(&mut infos), vec![ChaosStoneTimerResult::Respawn(8946, 2, 72)]);
    assert!(!infos[1].is_chaos_stone_killed);
    // The next death goes past rank 2, which has no spawn row: back to 1.
    on_chaos_stone_death(&mut infos, &spawns, 8946, 72);
    assert_eq!(infos[1].rank, 1);
}
