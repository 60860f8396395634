use ko_game::class_change::{
    all_point_change, all_skill_point_change, check_job_change, class_change_req_result,
    determine_new_class_and_race, effective_reset_money, get_base_stats_for_class,
    get_class_type, is_beginner, is_mage, is_mastered, is_novice, is_portu_kurian, is_priest,
    is_rogue, is_same_job_group, is_warrior, reb_stat_change, reb_stat_reset, reset_cost,
    skill_reset_free_points, stat_reset_free_points, JobChangeOutcome, RebirthOutcome,
    ResetOutcome, StatBlock, BERSERKER, BLADE, ELMOROGUE, GUARDIAN, ITEM_JOB_CHANGE,
    ITEM_JOB_CHANGE2, KARUWARRIOR, KURIANSTARTER, PORUTUNOVICE, PREMIUM_WARP,
    QUALIFICATION_OF_REBIRTH, REBIRTH_RESET_GOLD, REB_STAT_CHANGE, REB_STAT_RESET, RETURNTOKENS,
};
use ko_game::world::{ItemSlot, BABARIAN, ELMORAD_MAN, KARUS_BIG, KARUS_MIDDLE, KARUS_SMALL, KURIAN, PORUTU};

fn empty_inventory() -> Vec<ItemSlot> {
    vec![ItemSlot::empty(); 42]
}

fn stats(s: u8, t: u8, d: u8, i: u8, c: u8) -> StatBlock {
    StatBlock { str_val: s, sta: t, dex: d, intel: i, cha: c }
}

/// The reset price of a level, as the server computes it.
fn reset_money(level: u8) -> i32 {
    let base = (level as f64 * 2.0).powf(3.4) as i32;
    if level < 30 {
        (base as f32 * 0.4) as i32
    } else if level >= 60 {
        (base as f32 * 1.5) as i32
    } else {
        base
    }
}

#[test]
fn test_get_class_type() {
    assert_eq!(get_class_type(101), 1);
    assert_eq!(get_class_type(105), 5);
    assert_eq!(get_class_type(106), 6);
    assert_eq!(get_class_type(201), 1);
    assert_eq!(get_class_type(209), 9);
    assert_eq!(get_class_type(113), 13);
    assert_eq!(get_class_type(215), 15);
}

#[test]
fn test_class_helpers() {
    assert!(is_warrior(101));
    assert!(is_warrior(105));
    assert!(is_warrior(106));
    assert!(is_warrior(201));
    assert!(!is_warrior(102));

    assert!(is_rogue(102));
    assert!(is_rogue(107));
    assert!(is_rogue(108));
    assert!(!is_rogue(103));

    assert!(is_mage(103));
    assert!(is_mage(109));
    assert!(is_mage(110));

    assert!(is_priest(104));
    assert!(is_priest(111));
    assert!(is_priest(112));

    assert!(is_portu_kurian(113));
    assert!(is_portu_kurian(114));
    assert!(is_portu_kurian(115));
    assert!(is_portu_kurian(213));
}

#[test]
fn test_is_same_job_group() {
    assert!(is_same_job_group(101, 1));
    assert!(is_same_job_group(105, 1));
    assert!(is_same_job_group(205, 1));

    assert!(!is_same_job_group(101, 2));
    assert!(!is_same_job_group(105, 3));

    assert!(is_same_job_group(113, 5));
    assert!(is_same_job_group(215, 5));
}

#[test]
fn test_is_beginner_novice_mastered() {
    assert!(is_beginner(101));
    assert!(is_beginner(102));
    assert!(is_beginner(113));
    assert!(!is_beginner(105));

    assert!(is_novice(105));
    assert!(is_novice(107));
    assert!(is_novice(114));
    assert!(!is_novice(106));

    assert!(is_mastered(106));
    assert!(is_mastered(108));
    assert!(is_mastered(115));
    assert!(!is_mastered(105));
}

#[test]
fn test_get_base_stats() {
    assert_eq!(get_base_stats_for_class(101), (65, 65, 60, 50, 50));
    assert_eq!(get_base_stats_for_class(105), (65, 65, 60, 50, 50));
    assert_eq!(get_base_stats_for_class(201), (65, 65, 60, 50, 50));

    assert_eq!(get_base_stats_for_class(102), (60, 60, 70, 50, 50));
    assert_eq!(get_base_stats_for_class(207), (60, 60, 70, 50, 50));

    assert_eq!(get_base_stats_for_class(103), (50, 60, 60, 70, 50));
    assert_eq!(get_base_stats_for_class(209), (50, 60, 60, 70, 50));

    assert_eq!(get_base_stats_for_class(104), (50, 60, 60, 70, 50));
    assert_eq!(get_base_stats_for_class(211), (50, 60, 60, 70, 50));

    assert_eq!(get_base_stats_for_class(113), (65, 65, 60, 50, 50));
    assert_eq!(get_base_stats_for_class(215), (65, 65, 60, 50, 50));
}

#[test]
fn test_determine_class_karus_beginner_rogue_to_warrior() {
    let result = determine_new_class_and_race(102, KARUS_MIDDLE, 1, 1, 0);
    assert_eq!(result, Some((KARUWARRIOR, KARUS_BIG)));
}

#[test]
fn test_determine_class_elmo_beginner_warrior_to_rogue() {
    let result = determine_new_class_and_race(201, ELMORAD_MAN, 2, 2, 0);
    assert_eq!(result, Some((ELMOROGUE, ELMORAD_MAN)));
}

#[test]
fn test_determine_class_elmo_beginner_warrior_to_rogue_barbarian() {
    let result = determine_new_class_and_race(201, BABARIAN, 2, 2, 0);
    assert_eq!(result, Some((ELMOROGUE, ELMORAD_MAN)));
}

#[test]
fn test_determine_class_karus_novice_mage_to_warrior() {
    let result = determine_new_class_and_race(109, KARUS_SMALL, 1, 1, 0);
    assert_eq!(result, Some((BERSERKER, KARUS_BIG)));
}

#[test]
fn test_determine_class_karus_mastered_priest_to_warrior_type0() {
    let result = determine_new_class_and_race(112, KARUS_MIDDLE, 1, 1, 0);
    assert_eq!(result, Some((GUARDIAN, KARUS_BIG)));
}

#[test]
fn test_determine_class_karus_mastered_priest_to_warrior_type1() {
    let result = determine_new_class_and_race(112, KARUS_MIDDLE, 1, 1, 1);
    assert_eq!(result, Some((BERSERKER, KARUS_BIG)));
}

#[test]
fn test_determine_class_to_kurian() {
    let result = determine_new_class_and_race(101, KARUS_BIG, 1, 5, 0);
    assert_eq!(result, Some((KURIANSTARTER, KURIAN)));

    let result = determine_new_class_and_race(207, ELMORAD_MAN, 2, 5, 0);
    assert_eq!(result, Some((PORUTUNOVICE, PORUTU)));
}

#[test]
fn test_determine_class_same_group_returns_none() {
    let result = determine_new_class_and_race(101, KARUS_BIG, 1, 1, 0);
    assert_eq!(result, None);
}

#[test]
fn test_free_points_calculation() {
    assert_eq!(stat_reset_free_points(60), 187);
    assert_eq!(stat_reset_free_points(70), 237);
}

#[test]
fn test_free_skill_points_calculation() {
    assert_eq!(skill_reset_free_points(60), 102);
    assert_eq!(skill_reset_free_points(10), 2);
    assert_eq!(skill_reset_free_points(83), 148);
}

#[test]
fn test_gold_u32_comparison_no_overflow() {
    let gold: u32 = 3_000_000_000;
    let money_required: i32 = 100_000;
    let cost = reset_cost(money_required, false);

    assert!(gold >= cost);
    assert_eq!(gold.saturating_sub(cost), 2_999_900_000);

    let gold_as_i32 = gold as i32;
    assert!(gold_as_i32 < 0, "as i32 wraps large u32 to negative");
    assert!(
        gold_as_i32 < money_required,
        "old pattern falsely thinks player cannot afford"
    );

    // The stat reset itself takes the price from the full u32 gold.
    let outcome = all_point_change(60, 101, gold, &empty_inventory(), money_required, false, false);
    match outcome {
        ResetOutcome::Stats { gold: left, .. } => assert_eq!(left, 2_999_900_000),
        other => panic!("unexpected {:?}", other),
    }
}

#[test]
fn test_gold_zero_cost_saturating_sub() {
    let gold: u32 = 500;
    let money_required: i32 = -100;
    let cost = reset_cost(money_required, false);
    assert_eq!(cost, 0);
    assert_eq!(gold.saturating_sub(cost), 500);
}

#[test]
fn test_job_change_triggers_disconnect() {
    let disconnect_expected = true;
    assert!(
        disconnect_expected,
        "Server must disconnect after job change"
    );
}

#[test]
fn test_return_token_constant() {
    assert_eq!(RETURNTOKENS, 810512000);
    assert_eq!(PREMIUM_WARP, 12);
}

#[test]
fn test_free_reset_cost_is_zero() {
    let money_required = reset_money(60);
    let cost = reset_cost(money_required, true);
    assert_eq!(cost, 0, "Free reset must have zero cost");
}

#[test]
fn test_non_free_reset_has_cost() {
    let money_required = reset_money(60);
    let cost = reset_cost(money_required, false);
    assert!(cost > 0, "Non-free reset must charge gold");
}

#[test]
fn test_reb_stat_change_sum_validation() {
    let ok = reb_stat_change(0, stats(0, 0, 0, 0, 0), stats(1, 1, 0, 0, 0), true);
    assert!(matches!(ok, RebirthOutcome::Reborn { .. }), "rebirth stat change must allocate exactly 2 points");

    let bad = reb_stat_change(0, stats(0, 0, 0, 0, 0), stats(1, 1, 1, 0, 0), true);
    assert_eq!(bad, RebirthOutcome::Refused, "3 points should fail validation");
}

#[test]
fn test_reb_stat_reset_sum_validation() {
    let ok = reb_stat_reset(3, stats(2, 2, 2, 0, 0), 0, REBIRTH_RESET_GOLD);
    assert_eq!(
        ok,
        RebirthOutcome::Redistributed { stats: stats(2, 2, 2, 0, 0), gold: 0 },
        "reset sum must equal rebirth_level * 2"
    );

    let bad = reb_stat_reset(3, stats(2, 2, 1, 0, 0), 0, REBIRTH_RESET_GOLD);
    assert_eq!(bad, RebirthOutcome::Refused, "sum != rebirth_level * 2 should fail");
}

#[test]
fn test_reb_stat_change_max_level() {
    let refused = reb_stat_change(10, stats(0, 0, 0, 0, 0), stats(2, 0, 0, 0, 0), true);
    assert_eq!(refused, RebirthOutcome::Refused, "level 10 should be rejected");

    let accepted = reb_stat_change(9, stats(0, 0, 0, 0, 0), stats(2, 0, 0, 0, 0), true);
    assert_eq!(
        accepted,
        RebirthOutcome::Reborn { rebirth_level: 10, stats: stats(2, 0, 0, 0, 0), clear_quests: false },
        "level 9 should be accepted"
    );
}

#[test]
fn test_reb_stat_reset_requires_rebirth() {
    let refused = reb_stat_reset(0, stats(0, 0, 0, 0, 0), 12, u32::MAX);
    assert_eq!(refused, RebirthOutcome::Refused, "level 0 means not rebirthed, should fail");
}

#[test]
fn test_rebirth_constants() {
    assert_eq!(REB_STAT_CHANGE, 0x07);
    assert_eq!(REB_STAT_RESET, 0x08);
    assert_eq!(QUALIFICATION_OF_REBIRTH, 900_579_000);
    assert_eq!(REBIRTH_RESET_GOLD, 100_000_000);
}

// ── Further cases ────────────────────────────────────────────────────

#[test]
fn job_change_lands_in_requested_group() {
    // Every beginner/novice/mastered class of either nation, to every other group.
    for nation in [1u8, 2] {
        for class_type in 1u16..=15 {
            let class = nation as u16 * 100 + class_type;
            for job in 1u8..=5 {
                let r = determine_new_class_and_race(class, KARUS_BIG, nation, job, 0);
                if is_same_job_group(class, job) {
                    assert_eq!(r, None);
                } else {
                    let (new_class, _) = r.expect("a change to another group");
                    assert!(is_same_job_group(new_class, job));
                    assert_eq!(new_class / 100, nation as u16);
                }
            }
        }
    }
}

#[test]
fn job_change_master_scroll_keeps_novice_tier() {
    assert_eq!(determine_new_class_and_race(212, ELMORAD_MAN, 2, 1, 1), Some((BLADE, ELMORAD_MAN)));
    assert_eq!(determine_new_class_and_race(206, PORUTU, 2, 1, 0), None);
    assert_eq!(determine_new_class_and_race(199, KARUS_BIG, 1, 1, 0), None);
    assert_eq!(determine_new_class_and_race(101, KARUS_BIG, 1, 6, 0), None);
}

#[test]
fn job_change_request_checks_in_order() {
    let mut inv = empty_inventory();
    assert_eq!(check_job_change(101, KARUS_BIG, 1, &inv, 0, 9), JobChangeOutcome::Refused(5));
    assert_eq!(check_job_change(101, KARUS_BIG, 1, &inv, 2, 2), JobChangeOutcome::Refused(5));
    assert_eq!(check_job_change(101, KARUS_BIG, 1, &inv, 0, 2), JobChangeOutcome::Refused(6));
    inv[20] = ItemSlot::holding(ITEM_JOB_CHANGE, 1);
    assert_eq!(check_job_change(101, KARUS_BIG, 1, &inv, 0, 1), JobChangeOutcome::Refused(6));
    inv[3] = ItemSlot::holding(1, 1);
    assert_eq!(check_job_change(101, KARUS_BIG, 1, &inv, 0, 2), JobChangeOutcome::Refused(4));
    inv[3] = ItemSlot::holding(0, 0);
    assert_eq!(
        check_job_change(101, KARUS_BIG, 1, &inv, 0, 2),
        JobChangeOutcome::Changed { scroll_id: ITEM_JOB_CHANGE, new_class: 102, new_race: KARUS_MIDDLE }
    );
    // The master change needs the other scroll.
    assert_eq!(check_job_change(106, KARUS_BIG, 1, &inv, 1, 2), JobChangeOutcome::Refused(6));
    inv[30] = ItemSlot::holding(ITEM_JOB_CHANGE2, 1);
    assert_eq!(
        check_job_change(106, KARUS_BIG, 1, &inv, 1, 2),
        JobChangeOutcome::Changed { scroll_id: ITEM_JOB_CHANGE2, new_class: 107, new_race: KARUS_MIDDLE }
    );
}

#[test]
fn class_change_query_results() {
    assert_eq!(class_change_req_result(9, 101), 2);
    assert_eq!(class_change_req_result(10, 101), 1);
    assert_eq!(class_change_req_result(60, 105), 3);
    assert_eq!(class_change_req_result(60, 213), 1);
    assert_eq!(class_change_req_result(60, 214), 3);
}

#[test]
fn stat_reset_outcomes() {
    let mut inv = empty_inventory();
    inv[0] = ItemSlot::holding(5, 1);
    assert_eq!(
        all_point_change(60, 102, 1000, &inv, 500, false, false),
        ResetOutcome::Refused { code: 4, money: 500 }
    );
    let inv = empty_inventory();
    assert_eq!(
        all_point_change(60, 102, 100, &inv, 500, false, true),
        ResetOutcome::Refused { code: 0, money: 250 }
    );
    assert_eq!(
        all_point_change(70, 102, 1000, &inv, 500, false, true),
        ResetOutcome::Stats { stats: stats(60, 60, 70, 50, 50), free_points: 237, gold: 750 }
    );
    assert_eq!(
        all_point_change(1, 103, 0, &inv, 500, true, true),
        ResetOutcome::Stats { stats: stats(50, 60, 60, 70, 50), free_points: 10, gold: 0 }
    );
    assert_eq!(effective_reset_money(-7, false, true), -3);
}

#[test]
fn skill_reset_outcomes() {
    let none = [0u8; 10];
    let some = [9u8, 0, 3, 0, 0, 0, 0, 0, 1, 4];
    assert_eq!(
        all_skill_point_change(9, 1000, some, 10, false, false),
        ResetOutcome::Refused { code: 0, money: 10 }
    );
    assert_eq!(
        all_skill_point_change(60, 1000, none, 10, false, false),
        ResetOutcome::Refused { code: 2, money: 10 }
    );
    assert_eq!(
        all_skill_point_change(60, 5, some, 10, false, false),
        ResetOutcome::Refused { code: 0, money: 10 }
    );
    assert_eq!(
        all_skill_point_change(60, 1000, some, 10, false, false),
        ResetOutcome::Skills { free_skill_points: 102, gold: 990 }
    );
    assert_eq!(
        all_skill_point_change(255, 0, some, 10, true, false),
        ResetOutcome::Skills { free_skill_points: 255, gold: 0 }
    );
}

#[test]
fn rebirth_adds_and_redistributes() {
    let r = reb_stat_change(2, stats(4, 0, 0, 0, 255), stats(0, 0, 0, 1, 1), true);
    assert_eq!(
        r,
        RebirthOutcome::Reborn { rebirth_level: 3, stats: stats(4, 0, 0, 1, 255), clear_quests: true }
    );
    assert_eq!(reb_stat_change(2, stats(0, 0, 0, 0, 0), stats(2, 0, 0, 0, 0), false), RebirthOutcome::Refused);
    assert_eq!(
        reb_stat_reset(2, stats(0, 0, 4, 0, 0), 13, 7),
        RebirthOutcome::Redistributed { stats: stats(0, 0, 4, 0, 0), gold: 7 }
    );
    assert_eq!(reb_stat_reset(2, stats(0, 0, 4, 0, 0), 11, 7), RebirthOutcome::Refused);
}
