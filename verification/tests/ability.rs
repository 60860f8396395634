use ko_game::ability::{
    confirmed_status, seal_upgrade, shown_level, shown_slot, slot_selectable, SealLevels,
    UpgradeOutcome, ABILITY_SUB_ERROR_DETAIL, ABILITY_SUB_INIT, ABILITY_SUB_ITEM_RESULT,
    ABILITY_SUB_LEVEL_UP, ABILITY_SUB_RESULT, ABILITY_SUB_SLOT_UPDATE, MAX_LEVEL, MAX_SLOTS,
    TOTAL_PROGRESS_SECS,
};

#[test]
fn test_sub_type_constants() {
    assert_eq!(ABILITY_SUB_INIT, 1);
    assert_eq!(ABILITY_SUB_RESULT, 2);
    assert_eq!(ABILITY_SUB_LEVEL_UP, 3);
    assert_eq!(ABILITY_SUB_ERROR_DETAIL, 4);
    assert_eq!(ABILITY_SUB_ITEM_RESULT, 5);
    assert_eq!(ABILITY_SUB_SLOT_UPDATE, 6);
}

#[test]
fn ability_test_constants() {
    assert_eq!(MAX_SLOTS, 24);
    assert_eq!(MAX_LEVEL, 9);
    assert!((TOTAL_PROGRESS_SECS as f64 - 7200.0).abs() < f64::EPSILON);
}

#[test]
fn shown_values_are_capped_and_wrapped() {
    assert_eq!(shown_level(15), 9);
    assert_eq!(shown_level(12), 9);
    assert_eq!(shown_level(3), 3);
    assert_eq!(shown_slot(25), 1);
    assert_eq!(shown_slot(7), 7);
    assert!(slot_selectable(23));
    assert!(!slot_selectable(24));
}

#[test]
fn upgrade_decisions() {
    let s = SealLevels { max_tier: 3, upgrade_count: 5, current_level: 3 };
    assert_eq!(seal_upgrade(false, true, s), UpgradeOutcome::NotLoaded);
    assert_eq!(seal_upgrade(true, false, s), UpgradeOutcome::Refused);
    assert_eq!(
        seal_upgrade(true, true, s),
        UpgradeOutcome::Upgraded(SealLevels { max_tier: 4, upgrade_count: 6, current_level: 4 })
    );
    let top = SealLevels { max_tier: 9, upgrade_count: 20, current_level: 9 };
    assert_eq!(seal_upgrade(true, true, top), UpgradeOutcome::Refused);
    let low = SealLevels { max_tier: 8, upgrade_count: 255, current_level: 2 };
    assert_eq!(
        seal_upgrade(true, true, low),
        UpgradeOutcome::Upgraded(SealLevels { max_tier: 8, upgrade_count: 255, current_level: 3 })
    );
}

#[test]
fn confirm_activates_loaded_seal() {
    assert_eq!(confirmed_status(true, 1), 0);
    assert_eq!(confirmed_status(false, 1), 1);
}
