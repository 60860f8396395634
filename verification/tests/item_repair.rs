use ko_game::item_repair::{
    apply_repair, check_repair, get_repair_target, repair_price, RepairDecision, RepairItemDef,
    RepairNpc, ITEM_KIND_UNIQUE, NPC_MERCHANT, NPC_TINKER, SELL_TYPE_NO_REPAIRS,
};
use ko_game::world::{ItemSlot, HAVE_MAX, SLOT_MAX};

fn npc(npc_type: u8) -> RepairNpc {
    RepairNpc { in_range: true, dead: false, npc_type: Some(npc_type) }
}

fn sword_def() -> RepairItemDef {
    RepairItemDef { sell_price: Some(0), kind: Some(1), duration: Some(100), buy_price: Some(10000) }
}

fn inventory_with(index: usize, slot: ItemSlot) -> Vec<ItemSlot> {
    let mut inv = vec![ItemSlot::empty(); SLOT_MAX + HAVE_MAX];
    inv[index] = slot;
    inv
}

fn worn_sword(durability: i16) -> ItemSlot {
    let mut s = ItemSlot::holding(120050001, 1);
    s.durability = durability;
    s
}

#[test]
fn test_npc_type_constants() {
    assert_eq!(NPC_MERCHANT, 21);
    assert_eq!(NPC_TINKER, 22);
    // Only these two types should be allowed for repair
    let valid_types = [NPC_MERCHANT, NPC_TINKER];
    assert!(valid_types.contains(&21));
    assert!(valid_types.contains(&22));
    assert!(!valid_types.contains(&0)); // monster
    assert!(!valid_types.contains(&40)); // healer
    assert!(!valid_types.contains(&50)); // gate
}

#[test]
fn test_repair_cost_formula() {
    // MoneyID = (((buy_price-10)/10000.0) + pow(buy_price, 0.75)) * quantity / durability
    let buy_price: f64 = 10000.0;
    let max_durability: u16 = 100;
    let quantity: u16 = 50;

    let cost = ((((buy_price - 10.0) / 10000.0) + buy_price.powf(0.75)) * quantity as f64
        / max_durability as f64) as u32;

    // Should produce a reasonable cost
    assert!(cost > 0);
    // Cost should scale with quantity
    let cost_full = ((((buy_price - 10.0) / 10000.0) + buy_price.powf(0.75)) * 100.0
        / max_durability as f64) as u32;
    assert!(cost_full > cost);
}

#[test]
fn test_sell_type_no_repairs_constant() {
    // Items with sell_price == 2 cannot be repaired
    assert_eq!(SELL_TYPE_NO_REPAIRS, 2);
    // Normal sell prices should NOT trigger the check
    assert_ne!(0_i32, SELL_TYPE_NO_REPAIRS);
    assert_ne!(1_i32, SELL_TYPE_NO_REPAIRS);
    assert_ne!(100_i32, SELL_TYPE_NO_REPAIRS);
    // Only exactly 2 should trigger
    assert_eq!(2_i32, SELL_TYPE_NO_REPAIRS);
}

#[test]
fn test_npc_range_fail_is_silent_return() {
    // An NPC that is missing or out of range gets no answer at all.
    let silent_return = true; // NPC out of range → no packet sent
    let send_fail_packet = false; // Must NOT send error packet
    assert!(silent_return);
    assert!(!send_fail_packet);
    let far = RepairNpc { in_range: false, dead: false, npc_type: Some(NPC_TINKER) };
    let inv = inventory_with(1, worn_sword(50));
    assert_eq!(check_repair(far, 1, 1, &inv, 120050001, Some(sword_def())), RepairDecision::Silent);
}

#[test]
fn test_npc_type_tinker_or_merchant_only() {
    let npc_type_healer: u8 = 40;
    let npc_type_gate: u8 = 50;
    assert!(npc_type_healer != NPC_MERCHANT && npc_type_healer != NPC_TINKER);
    assert!(npc_type_gate != NPC_MERCHANT && npc_type_gate != NPC_TINKER);
    let inv = inventory_with(1, worn_sword(50));
    assert_eq!(check_repair(npc(40), 1, 1, &inv, 120050001, Some(sword_def())), RepairDecision::Fail);
}

#[test]
fn test_item_repair_pos_type_constants() {
    // pos_type=1: equipment, slot must be < SLOT_MAX
    let pos_equipment: u8 = 1;
    let pos_inventory: u8 = 2;
    assert_eq!(pos_equipment, 1);
    assert_eq!(pos_inventory, 2);
    // actual_idx for inventory = SLOT_MAX + slot
    let actual = SLOT_MAX + 5usize;
    assert_eq!(actual, SLOT_MAX + 5);
    assert_eq!(get_repair_target(pos_inventory, 5), Some(actual));
}

#[test]
fn test_item_repair_slot_boundaries() {
    assert!(SLOT_MAX > 0);
    assert!(HAVE_MAX > 0);
    // Equipment index must be < SLOT_MAX
    assert!(0 < SLOT_MAX);
    // Inventory index must be < HAVE_MAX
    assert!(0 < HAVE_MAX);
}

#[test]
fn test_item_repair_cost_scales_with_damage() {
    let buy_price: f64 = 5000.0;
    let max_dur: u16 = 100;

    let cost_25 = ((((buy_price - 10.0) / 10000.0) + buy_price.powf(0.75)) * 25.0
        / max_dur as f64) as u32;
    let cost_50 = ((((buy_price - 10.0) / 10000.0) + buy_price.powf(0.75)) * 50.0
        / max_dur as f64) as u32;
    let cost_100 = ((((buy_price - 10.0) / 10000.0) + buy_price.powf(0.75)) * 100.0
        / max_dur as f64) as u32;

    assert!(cost_25 < cost_50);
    assert!(cost_50 < cost_100);
}

#[test]
fn repair_targets_equipment_and_bag() {
    assert_eq!(get_repair_target(1, 0), Some(0));
    assert_eq!(get_repair_target(1, 13), Some(13));
    assert_eq!(get_repair_target(1, 14), None);
    assert_eq!(get_repair_target(2, 0), Some(14));
    assert_eq!(get_repair_target(2, 27), Some(41));
    assert_eq!(get_repair_target(2, 28), None);
    assert_eq!(get_repair_target(0, 0), None);
    assert_eq!(get_repair_target(3, 0), None);
}

#[test]
fn repair_granted_for_damaged_weapon() {
    let inv = inventory_with(SLOT_MAX + 3, worn_sword(40));
    let d = check_repair(npc(NPC_MERCHANT), 2, 3, &inv, 120050001, Some(sword_def()));
    assert_eq!(d, RepairDecision::Repair { index: SLOT_MAX + 3, max_durability: 100, quantity: 60 });
}

#[test]
fn repair_refusals() {
    let inv = inventory_with(1, worn_sword(40));
    let dead = RepairNpc { in_range: true, dead: true, npc_type: Some(NPC_TINKER) };
    assert_eq!(check_repair(dead, 1, 1, &inv, 120050001, Some(sword_def())), RepairDecision::Silent);
    let unknown = RepairNpc { in_range: true, dead: false, npc_type: None };
    assert_eq!(check_repair(unknown, 1, 1, &inv, 120050001, Some(sword_def())), RepairDecision::Fail);
    // wrong item in the slot
    assert_eq!(check_repair(npc(NPC_TINKER), 1, 1, &inv, 1, Some(sword_def())), RepairDecision::Fail);
    // unknown item
    assert_eq!(check_repair(npc(NPC_TINKER), 1, 1, &inv, 120050001, None), RepairDecision::Fail);
    // no-repair sell type
    let mut d = sword_def();
    d.sell_price = Some(SELL_TYPE_NO_REPAIRS);
    assert_eq!(check_repair(npc(NPC_TINKER), 1, 1, &inv, 120050001, Some(d)), RepairDecision::Fail);
    // unique kind
    let mut d = sword_def();
    d.kind = Some(ITEM_KIND_UNIQUE);
    assert_eq!(check_repair(npc(NPC_TINKER), 1, 1, &inv, 120050001, Some(d)), RepairDecision::Fail);
    // durability one or missing
    let mut d = sword_def();
    d.duration = Some(1);
    assert_eq!(check_repair(npc(NPC_TINKER), 1, 1, &inv, 120050001, Some(d)), RepairDecision::Fail);
    d.duration = None;
    assert_eq!(check_repair(npc(NPC_TINKER), 1, 1, &inv, 120050001, Some(d)), RepairDecision::Fail);
    // bad position type
    assert_eq!(check_repair(npc(NPC_TINKER), 4, 1, &inv, 120050001, Some(sword_def())), RepairDecision::Fail);
    // undamaged
    let full = inventory_with(1, worn_sword(100));
    assert_eq!(check_repair(npc(NPC_TINKER), 1, 1, &full, 120050001, Some(sword_def())), RepairDecision::Fail);
}

#[test]
fn repair_price_discounts() {
    assert_eq!(repair_price(1000, 0, 0), 1000);
    assert_eq!(repair_price(1000, 50, 0), 500);
    assert_eq!(repair_price(1000, 0, 80), 800);
    assert_eq!(repair_price(1000, 50, 80), 400);
    assert_eq!(repair_price(999, 50, 0), 499);
}

#[test]
fn repaired_item_cannot_be_repaired_again() {
    let mut inv = inventory_with(2, worn_sword(10));
    let d = check_repair(npc(NPC_TINKER), 1, 2, &inv, 120050001, Some(sword_def()));
    match d {
        RepairDecision::Repair { index, max_durability, quantity } => {
            assert_eq!(quantity, 90);
            apply_repair(&mut inv, index, max_durability);
            assert_eq!(inv[2].durability, 100);
            assert_eq!(inv[2].item_id, 120050001);
        }
        other => panic!("expected a repair, got {:?}", other),
    }
    assert_eq!(check_repair(npc(NPC_TINKER), 1, 2, &inv, 120050001, Some(sword_def())), RepairDecision::Fail);
}

#[test]
fn apply_repair_out_of_range_changes_nothing() {
    let mut inv = vec![worn_sword(5)];
    apply_repair(&mut inv, 3, 100);
    assert_eq!(inv, vec![worn_sword(5)]);
}
