use ko_game::item_production::{
    compare, compose_accessory_id, compose_defensive_id, compose_weapon_id, get_item_code_number,
    get_item_grade, get_weapon_item_code_number, item_production, pick_weighted,
    MakeDefensiveRow, MakeItemGradeCodeRow, MakeItemLareCodeRow, MakeItemTables, MakeWeaponRow,
};

fn empty_tables() -> MakeItemTables {
    MakeItemTables { grade_codes: vec![], weapons: vec![], defensives: vec![], lare_codes: vec![] }
}

fn grade_row(item_index: i16, g: [i16; 9]) -> MakeItemGradeCodeRow {
    MakeItemGradeCodeRow {
        item_index,
        grade_1: g[0],
        grade_2: g[1],
        grade_3: g[2],
        grade_4: g[3],
        grade_5: g[4],
        grade_6: g[5],
        grade_7: g[6],
        grade_8: g[7],
        grade_9: g[8],
    }
}

fn weapon_row(by_level: i16, c: [i16; 12]) -> MakeWeaponRow {
    MakeWeaponRow {
        by_level,
        class_1: c[0],
        class_2: c[1],
        class_3: c[2],
        class_4: c[3],
        class_5: c[4],
        class_6: c[5],
        class_7: c[6],
        class_8: c[7],
        class_9: c[8],
        class_10: c[9],
        class_11: c[10],
        class_12: c[11],
    }
}

fn test_tables() -> MakeItemTables {
    MakeItemTables {
        grade_codes: vec![grade_row(5, [0, 100, 200, 400, 300, 0, 0, 0, 0])],
        weapons: vec![weapon_row(3, [100, 100, 100, 100, 100, 100, 100, 100, 100, 100, 0, 0])],
        defensives: vec![MakeDefensiveRow {
            by_level: 3,
            class_1: 200,
            class_2: 200,
            class_3: 200,
            class_4: 200,
            class_5: 100,
            class_6: 50,
            class_7: 50,
        }],
        lare_codes: vec![MakeItemLareCodeRow { level_grade: 6, lare_item: 250, magic_item: 250, general_item: 500 }],
    }
}

#[test]
fn test_compare() {
    assert!(compare(5, 1, 10));
    assert!(compare(1, 1, 10));
    assert!(!compare(10, 1, 10));
    assert!(!compare(0, 1, 10));
}

#[test]
fn test_get_item_grade_missing_data() {
    let t = empty_tables();
    assert_eq!(get_item_grade(&t, 99), 0);
}

#[test]
fn test_get_item_grade_returns_valid_grade() {
    let t = test_tables();
    let mut found_nonzero = false;
    for _ in 0..200 {
        let grade = get_item_grade(&t, 5);
        assert!(grade == 0 || (2..=5).contains(&grade), "Expected grade 0 or 2-5, got {grade}");
        if grade > 0 {
            found_nonzero = true;
        }
    }
    assert!(found_nonzero, "Should produce at least one non-zero grade");
}

#[test]
fn test_get_weapon_item_code_number_missing_data() {
    let t = empty_tables();
    assert_eq!(get_weapon_item_code_number(&t, 30, true), 0);
    assert_eq!(get_weapon_item_code_number(&t, 30, false), 0);
}

#[test]
fn test_get_weapon_item_code_number_weapon() {
    let t = test_tables();
    let mut found_nonzero = false;
    for _ in 0..200 {
        let code = get_weapon_item_code_number(&t, 30, true);
        assert!((0..=10).contains(&code), "Expected 0-10, got {code}");
        if code > 0 {
            found_nonzero = true;
        }
    }
    assert!(found_nonzero, "Should produce at least one non-zero class");
}

#[test]
fn test_get_weapon_item_code_number_defensive() {
    let t = test_tables();
    let mut found_nonzero = false;
    for _ in 0..200 {
        let code = get_weapon_item_code_number(&t, 30, false);
        assert!((0..=7).contains(&code), "Expected 0-7, got {code}");
        if code > 0 {
            found_nonzero = true;
        }
    }
    assert!(found_nonzero, "Should produce at least one non-zero class");
}

#[test]
fn test_get_item_code_number_missing_data() {
    let t = empty_tables();
    assert_eq!(get_item_code_number(&t, 6, 1), -1);
}

#[test]
fn test_get_item_code_number_weapon_type() {
    let t = test_tables();
    for _ in 0..100 {
        let code = get_item_code_number(&t, 6, 1);
        assert!((0..=24).contains(&code), "Expected 0-24, got {code}");
    }
}

#[test]
fn test_get_item_code_number_defensive_type() {
    let t = test_tables();
    for _ in 0..100 {
        let code = get_item_code_number(&t, 6, 2);
        assert!((0..=24).contains(&code), "Expected 0-24, got {code}");
    }
}

#[test]
fn test_get_item_code_number_accessory_type() {
    let t = test_tables();
    for _ in 0..100 {
        let code = get_item_code_number(&t, 6, 3);
        assert!((0..=10).contains(&code), "Expected 0-10, got {code}");
    }
}

#[test]
fn test_item_production_missing_grade() {
    let t = empty_tables();
    assert_eq!(item_production(&t, 99, 30, 1), 0);
}

#[test]
fn test_item_production_generates_valid_item() {
    let t = test_tables();
    let mut generated_count = 0;
    for _ in 0..100 {
        let item_id = item_production(&t, 5, 30, 1);
        if item_id > 0 {
            generated_count += 1;
            assert!(item_id >= 100_000_000, "Expected >= 100M, got {item_id}");
        }
    }
    assert!(generated_count > 0, "No items were generated");
}

#[test]
fn test_item_production_karus_nation() {
    let t = test_tables();
    let mut found_items = false;
    for _ in 0..50 {
        if item_production(&t, 5, 30, 1) > 0 {
            found_items = true;
        }
    }
    assert!(found_items, "Karus nation should produce items");
}

#[test]
fn test_item_production_elmorad_nation() {
    let t = test_tables();
    let mut found_items = false;
    for _ in 0..50 {
        if item_production(&t, 5, 30, 2) > 0 {
            found_items = true;
        }
    }
    assert!(found_items, "Elmorad nation should produce items");
}

#[test]
fn test_grade_all_weights_zero_returns_zero() {
    let mut t = empty_tables();
    t.grade_codes.push(grade_row(1, [0; 9]));
    assert_eq!(get_item_grade(&t, 1), 0);
}

#[test]
fn test_weapon_class_all_zero_returns_zero() {
    let mut t = empty_tables();
    t.weapons.push(weapon_row(0, [0; 12]));
    assert_eq!(get_weapon_item_code_number(&t, 0, true), 0);
}

// ── Further cases ────────────────────────────────────────────────────

#[test]
fn weighted_pick_uses_cumulative_ranges() {
    let w = [0i16, 100, 200, 400, 300, 0, 0, 0, 0];
    assert_eq!(pick_weighted(&w, 0), 2);
    assert_eq!(pick_weighted(&w, 99), 2);
    assert_eq!(pick_weighted(&w, 100), 3);
    assert_eq!(pick_weighted(&w, 299), 3);
    assert_eq!(pick_weighted(&w, 300), 4);
    assert_eq!(pick_weighted(&w, 999), 5);
    assert_eq!(pick_weighted(&w, 1000), 0);
    assert_eq!(pick_weighted(&[-5i16, 10], 0), 0);
}

#[test]
fn item_ids_compose_their_parts() {
    // Weapon: 100M + class*100000 + band + 10000/50000 + 0/5M + code*10 + grade.
    assert_eq!(compose_weapon_id(3, 1, 4999, 4999, 16, 2), 100_000_000 + 300_000 + 10_000_000 + 10_000 + 16 * 10 + 2);
    assert_eq!(compose_weapon_id(12, 10_000, 5000, 5000, 24, 9), 100_000_000 + 1_200_000 + 90_000_000 + 50_000 + 5_000_000 + 249);
    // Defensive, Karus: band and race code from the main roll.
    assert_eq!(compose_defensive_id(2, 1, 2500, 0, 0, 5, 3), 200_000_000 + 40_000_000 + 2_000_000 + 20_000 + 1_000 + 53);
    assert_eq!(compose_defensive_id(1, 1, 9000, 7000, 9000, 0, 1), 200_000_000 + 80_000_000 + 1_000_000 + 40_000 + 5_000 + 1);
    // Defensive, El Morad: the key picks the race code.
    assert_eq!(compose_defensive_id(1, 2, 100, 4000, 4000, 0, 1), 200_000_000 + 1_000_000 + 120_000 + 3_000 + 1);
    assert_eq!(compose_defensive_id(1, 2, 6000, 4000, 6000, 0, 1), 200_000_000 + 60_000_000 + 1_000_000 + 120_000 + 4_000 + 1);
    // Accessory.
    assert_eq!(compose_accessory_id(7500, 5000, 10, 4), 300_000_000 + 40_000_000 + 150_000 + 104);
}

#[test]
fn produced_items_end_in_their_grade() {
    let t = test_tables();
    for _ in 0..200 {
        let id = item_production(&t, 5, 30, 2);
        if id != 0 {
            let grade = id % 10;
            assert!((2..=5).contains(&grade));
            assert!((1..=3).contains(&(id / 100_000_000)));
        }
    }
}

fn certain_tables() -> MakeItemTables {
    MakeItemTables {
        grade_codes: vec![grade_row(5, [0, 1001, 0, 0, 0, 0, 0, 0, 0])],
        weapons: vec![weapon_row(3, [0, 0, 1001, 0, 0, 0, 0, 0, 0, 0, 0, 0])],
        defensives: vec![MakeDefensiveRow {
            by_level: 3,
            class_1: 1001,
            class_2: 0,
            class_3: 0,
            class_4: 0,
            class_5: 0,
            class_6: 0,
            class_7: 0,
        }],
        lare_codes: vec![MakeItemLareCodeRow { level_grade: 6, lare_item: 0, magic_item: 0, general_item: 1001 }],
    }
}

#[test]
fn production_with_complete_tables_always_gives_an_item() {
    let t = certain_tables();
    for _ in 0..200 {
        let item_id = item_production(&t, 5, 30, 1);
        assert!(item_id >= 100_000_000, "got {item_id}");
        assert_eq!(item_id % 10, 2);
    }
}

#[test]
fn production_without_rarity_row_gives_nothing() {
    let mut t = certain_tables();
    t.lare_codes.clear();
    for _ in 0..50 {
        assert_eq!(item_production(&t, 5, 30, 1), 0);
    }
}

#[test]
fn production_with_empty_grade_weights_gives_nothing() {
    let mut t = certain_tables();
    t.grade_codes = vec![grade_row(5, [0; 9])];
    for _ in 0..50 {
        assert_eq!(item_production(&t, 5, 30, 2), 0);
    }
}
