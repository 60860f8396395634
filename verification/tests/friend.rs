use ko_game::friend::{
    friend_add_precheck, friend_add_result, friend_remove_result, get_friend_status,
    report_count_allowed, valid_friend_name, FRIEND_ADD, FRIEND_ADD_ERROR, FRIEND_ADD_FULL,
    FRIEND_ADD_SUCCESS, FRIEND_REMOVE, FRIEND_REMOVE_ERROR, FRIEND_REMOVE_NOT_FOUND,
    FRIEND_REMOVE_SUCCESS, FRIEND_REPORT, FRIEND_REQUEST, MAX_FRIEND_COUNT,
};

#[test]
fn test_friend_constants() {
    assert_eq!(MAX_FRIEND_COUNT, 24);
    assert_eq!(FRIEND_REQUEST, 1);
    assert_eq!(FRIEND_REPORT, 2);
    assert_eq!(FRIEND_ADD, 3);
    assert_eq!(FRIEND_REMOVE, 4);
}

#[test]
fn test_friend_result_codes() {
    assert_eq!(FRIEND_ADD_SUCCESS, 0);
    assert_eq!(FRIEND_ADD_ERROR, 1);
    assert_eq!(FRIEND_ADD_FULL, 2);
    assert_eq!(FRIEND_REMOVE_SUCCESS, 0);
    assert_eq!(FRIEND_REMOVE_ERROR, 1);
    assert_eq!(FRIEND_REMOVE_NOT_FOUND, 2);
}

#[test]
fn test_friend_sub_opcode_range() {
    assert!(matches!(FRIEND_REQUEST, 1));
    assert!(matches!(FRIEND_REPORT, 2));
    assert!(matches!(FRIEND_ADD, 3));
    assert!(matches!(FRIEND_REMOVE, 4));
}

#[test]
fn friend_status_values() {
    assert_eq!(get_friend_status(None, false), (-1, 0));
    assert_eq!(get_friend_status(None, true), (-1, 0));
    assert_eq!(get_friend_status(Some(100), false), (100, 1));
    assert_eq!(get_friend_status(Some(42), true), (42, 3));
}

#[test]
fn friend_name_checks() {
    assert!(valid_friend_name("Warrior01", 20));
    assert!(!valid_friend_name("", 20));
    assert!(!valid_friend_name("ABCDEFGHIJKLMNOPQRSTU", 20));
    assert!(valid_friend_name("ABCDEFGHIJKLMNOPQRST", 20));
    assert!(report_count_allowed(24));
    assert!(!report_count_allowed(25));
}

#[test]
fn friend_add_decisions() {
    assert_eq!(friend_add_precheck("me", "ME", 0), Some(FRIEND_ADD_ERROR));
    assert_eq!(friend_add_precheck("Other", "Me", 24), Some(FRIEND_ADD_FULL));
    assert_eq!(friend_add_precheck("Other", "Me", 23), None);
    assert_eq!(friend_add_result(false, false), FRIEND_ADD_ERROR);
    assert_eq!(friend_add_result(true, false), FRIEND_ADD_ERROR);
    assert_eq!(friend_add_result(true, true), FRIEND_ADD_SUCCESS);
    assert_eq!(friend_remove_result(true), FRIEND_REMOVE_SUCCESS);
    assert_eq!(friend_remove_result(false), FRIEND_REMOVE_NOT_FOUND);
}
