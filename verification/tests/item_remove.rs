use ko_game::item_remove::{get_remove_target, refresh_equipped, remove_item};
use ko_game::world::{
    ItemSlot, HAVE_MAX, INVENTORY_COSP, ITEM_FLAG_RENTED, ITEM_FLAG_SEALED, SLOT_MAX,
    ZONE_CHAOS_DUNGEON, ZONE_MORADON,
};

fn full_inventory() -> Vec<ItemSlot> {
    vec![ItemSlot::empty(); 77]
}

#[test]
fn test_cosp_type3_index_calculation() {
    assert_eq!(INVENTORY_COSP, 42);

    // bPos=0 → index 50 (COSP slot #8)
    assert_eq!((INVENTORY_COSP + 8), 50);
    // bPos=1 → index 51
    assert_eq!(INVENTORY_COSP + 8 + 1, 51);
    // bPos=13 → index 63 (max valid for SLOT_MAX-1)
    assert_eq!(INVENTORY_COSP + 8 + 13, 63);
    assert_eq!(get_remove_target(3, 0), Some(50));
    assert_eq!(get_remove_target(3, 13), Some(63));
}

#[test]
fn test_cosp_type3_bounds_check() {
    // bPos must be < SLOT_MAX (14) for type 3
    assert!(14 >= SLOT_MAX); // pos=14 should fail
    assert!(0 < SLOT_MAX); // pos=0 should pass
    assert!(13 < SLOT_MAX); // pos=13 should pass
    assert_eq!(get_remove_target(3, 14), None);
}

#[test]
fn test_item_type_variants() {
    let pos: usize = 5;
    assert_eq!(SLOT_MAX + pos, 19); // type 0/2
    assert_eq!(pos, 5); // type 1
    assert_eq!(INVENTORY_COSP + 8 + pos, 55); // type 3
    assert_eq!(get_remove_target(0, 5), Some(19));
    assert_eq!(get_remove_target(2, 5), Some(19));
    assert_eq!(get_remove_target(1, 5), Some(5));
    assert_eq!(get_remove_target(3, 5), Some(55));
}

#[test]
fn test_zone_chaos_dungeon_constant() {
    assert_eq!(ZONE_CHAOS_DUNGEON, 85);
}

#[test]
fn test_sealed_rented_flag_constants() {
    assert_eq!(ITEM_FLAG_SEALED, 4);
    assert_eq!(ITEM_FLAG_RENTED, 1);
    assert_ne!(ITEM_FLAG_SEALED, ITEM_FLAG_RENTED);
}

#[test]
fn test_item_remove_inventory_cosp_constant() {
    assert_eq!(INVENTORY_COSP, 42);
    // COSP+8 = 50 (base for type-3 items)
    assert_eq!(INVENTORY_COSP + 8, 50);
}

#[test]
fn test_item_remove_type0_type2_same_mapping() {
    for item_type in [0u8, 2] {
        let pos: usize = 10;
        let actual_idx = SLOT_MAX + pos;
        assert_eq!(actual_idx, 24, "type {item_type} maps to SLOT_MAX+pos");
        assert_eq!(get_remove_target(item_type, pos as u8), Some(actual_idx));
    }
}

#[test]
fn remove_target_bounds() {
    assert_eq!(get_remove_target(0, (HAVE_MAX - 1) as u8), Some(SLOT_MAX + HAVE_MAX - 1));
    assert_eq!(get_remove_target(0, HAVE_MAX as u8), None);
    assert_eq!(get_remove_target(1, 14), None);
    assert_eq!(get_remove_target(4, 0), None);
}

#[test]
fn remove_clears_only_the_named_slot() {
    let mut inv = full_inventory();
    inv[SLOT_MAX + 5] = ItemSlot::holding(379006001, 3);
    inv[SLOT_MAX + 6] = ItemSlot::holding(379006001, 1);
    let before = inv.clone();
    assert!(remove_item(&mut inv, false, ZONE_MORADON, true, 0, 5, 379006001));
    assert_eq!(inv[SLOT_MAX + 5], ItemSlot::empty());
    for i in 0..inv.len() {
        if i != SLOT_MAX + 5 {
            assert_eq!(inv[i], before[i]);
        }
    }
}

#[test]
fn remove_refusals_leave_inventory_alone() {
    let mut inv = full_inventory();
    inv[3] = ItemSlot::holding(120050001, 1);
    let before = inv.clone();
    // mining or fishing
    assert!(!remove_item(&mut inv, true, ZONE_MORADON, true, 1, 3, 120050001));
    // chaos dungeon
    assert!(!remove_item(&mut inv, false, ZONE_CHAOS_DUNGEON, true, 1, 3, 120050001));
    // unknown item
    assert!(!remove_item(&mut inv, false, ZONE_MORADON, false, 1, 3, 120050001));
    // another item in the slot
    assert!(!remove_item(&mut inv, false, ZONE_MORADON, true, 1, 3, 1));
    // bad type
    assert!(!remove_item(&mut inv, false, ZONE_MORADON, true, 7, 3, 120050001));
    assert_eq!(inv, before);
    // sealed and rented items stay
    inv[3].flag = ITEM_FLAG_SEALED;
    assert!(!remove_item(&mut inv, false, ZONE_MORADON, true, 1, 3, 120050001));
    inv[3].flag = ITEM_FLAG_RENTED;
    assert!(!remove_item(&mut inv, false, ZONE_MORADON, true, 1, 3, 120050001));
    // other flags do not protect an item
    inv[3].flag = 2;
    assert!(remove_item(&mut inv, false, ZONE_MORADON, true, 1, 3, 120050001));
    assert_eq!(inv[3], ItemSlot::empty());
}

#[test]
fn remove_from_short_inventory_fails() {
    let mut inv = vec![ItemSlot::empty(); 20];
    assert!(!remove_item(&mut inv, false, ZONE_MORADON, true, 3, 0, 0));
}

#[test]
fn refresh_equipped_copies_equipment_ids() {
    let mut inv = full_inventory();
    inv[0] = ItemSlot::holding(11, 1);
    inv[13] = ItemSlot::holding(22, 1);
    let mut equipped = [7u32; 14];
    refresh_equipped(&mut equipped, &inv);
    assert_eq!(equipped[0], 11);
    assert_eq!(equipped[13], 22);
    assert_eq!(equipped[5], 0);

    let short = vec![ItemSlot::holding(5, 1); 3];
    let mut equipped = [7u32; 14];
    refresh_equipped(&mut equipped, &short);
    assert_eq!(&equipped[..3], &[5, 5, 5]);
    assert_eq!(equipped[3], 7);
}
