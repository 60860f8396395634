use ko_game::awakening::EFFECT_TYPE_VISUAL;
use ko_game::clan_premium::{
    clan_premium_status, CLAN_PREMIUM_ACTIVE, CLAN_PREMIUM_INACTIVE, CLAN_PREMIUM_QUERY,
    CLAN_PREMIUM_STATUS_CHANGE,
};
use ko_game::clanpoints_battle::{
    notification_string, STRING_SUB_0, STRING_SUB_1, STRING_SUB_2_5, STRING_SUB_3, STRING_SUB_4,
};
use ko_game::concurrent_user::{may_see_user_count, reported_user_count, AUTHORITY_GAME_MASTER};
use ko_game::daily_quest::{SUB_COMPLETE, SUB_ERROR, SUB_INIT};

#[test]
fn test_effect_type_constant() {
    assert_eq!(EFFECT_TYPE_VISUAL, 1);
}

#[test]
fn test_build_clan_premium_constants() {
    assert_eq!(CLAN_PREMIUM_QUERY, 1);
    assert_eq!(CLAN_PREMIUM_STATUS_CHANGE, 2);
    assert_eq!(CLAN_PREMIUM_INACTIVE, 0);
    assert_eq!(CLAN_PREMIUM_ACTIVE, 1);
}

#[test]
fn test_string_id_constants() {
    assert_eq!(STRING_SUB_0, 25051);
    assert_eq!(STRING_SUB_1, 25052);
    assert_eq!(STRING_SUB_2_5, 1511);
    assert_eq!(STRING_SUB_3, 25053);
    assert_eq!(STRING_SUB_4, 25054);
}

#[test]
fn test_sub_opcode_values() {
    assert_eq!(SUB_ERROR, 0);
    assert_eq!(SUB_INIT, 1);
    assert_eq!(SUB_COMPLETE, 2);
}

#[test]
fn test_concurrent_user_gm_authority_constant() {
    let gm_authority: u8 = 0;
    assert_eq!(gm_authority, 0, "GM authority constant for GAME_MASTER");
    assert_eq!(AUTHORITY_GAME_MASTER, gm_authority);
    assert!(may_see_user_count(gm_authority));
    assert!(!may_see_user_count(1));
}

#[test]
fn user_count_wraps_at_sixteen_bits() {
    assert_eq!(reported_user_count(350), 350);
    assert_eq!(reported_user_count(65_536 + 5), 5);
}

#[test]
fn notice_texts() {
    assert_eq!(notification_string(0), Some(25051));
    assert_eq!(notification_string(1), Some(25052));
    assert_eq!(notification_string(2), Some(1511));
    assert_eq!(notification_string(5), Some(1511));
    assert_eq!(notification_string(3), Some(25053));
    assert_eq!(notification_string(4), Some(25054));
    assert_eq!(notification_string(6), None);
    assert_eq!(clan_premium_status(true), 1);
    assert_eq!(clan_premium_status(false), 0);
}
