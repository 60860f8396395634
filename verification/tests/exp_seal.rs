use ko_game::exp_seal::{
    check_sealed_potion, exp_seal_gain, find_placed_position, sealed_after_potion, sealed_jar_for,
    SealGain, MAX_SEALED_EXP, SEALED_JAR, SEALED_JAR_100M, SEALED_JAR_1B, SEALED_JAR_500M,
};
use ko_game::world::{ItemSlot, SLOT_MAX};

fn bag_with_jar(pos: usize) -> Vec<ItemSlot> {
    let mut inv = vec![ItemSlot::empty(); 42];
    inv[SLOT_MAX + pos] = ItemSlot::holding(SEALED_JAR, 1);
    inv
}

fn all_jars() -> Vec<u32> {
    vec![SEALED_JAR_100M, SEALED_JAR_500M, SEALED_JAR_1B]
}

#[test]
fn test_sealed_jar_constants() {
    assert_eq!(SEALED_JAR, 810_354_000);
    assert_eq!(SEALED_JAR_100M, 810_357_000);
    assert_eq!(SEALED_JAR_500M, 810_355_000);
    assert_eq!(SEALED_JAR_1B, 810_356_000);
}

#[test]
fn test_max_sealed_exp() {
    assert_eq!(MAX_SEALED_EXP, 1_000_000_000);
}

#[test]
fn test_sealed_exp_cap_logic() {
    let current: u32 = 900_000_000;
    let amount: u32 = 200_000_000;
    let result = exp_seal_gain(current, amount as u64);
    assert_eq!(result, SealGain::Store(MAX_SEALED_EXP)); // capped at 1B
}

#[test]
fn test_sealed_exp_normal_add() {
    let current: u32 = 100_000_000;
    let amount: u32 = 50_000_000;
    let result = exp_seal_gain(current, amount as u64);
    assert_eq!(result, SealGain::Store(150_000_000));
}

#[test]
fn test_sealed_exp_deduction() {
    let current: u32 = 500_000_000;
    let deduct: u32 = 100_000_000;
    let result = sealed_after_potion(current, deduct as u64);
    assert_eq!(result, 400_000_000);
}

#[test]
fn full_pool_releases_gain() {
    assert_eq!(exp_seal_gain(MAX_SEALED_EXP, 1), SealGain::Release);
    assert_eq!(exp_seal_gain(MAX_SEALED_EXP, 0), SealGain::Store(MAX_SEALED_EXP));
    assert_eq!(exp_seal_gain(999_999_999, 5), SealGain::Store(MAX_SEALED_EXP));
    // a large gain fills the pool to the cap
    assert_eq!(exp_seal_gain(10, (1u64 << 32) + 7), SealGain::Store(MAX_SEALED_EXP));
    assert_eq!(exp_seal_gain(0, 1u64 << 32), SealGain::Store(MAX_SEALED_EXP));
    assert_eq!(exp_seal_gain(0, u64::MAX), SealGain::Store(MAX_SEALED_EXP));
    assert_eq!(exp_seal_gain(4_000_000_000, 4_000_000_000), SealGain::Release);
}

#[test]
fn filled_pool_then_releases() {
    let first = exp_seal_gain(900_000_000, 200_000_000);
    assert_eq!(first, SealGain::Store(MAX_SEALED_EXP));
    assert_eq!(exp_seal_gain(MAX_SEALED_EXP, 200_000_000), SealGain::Release);
}

#[test]
fn jar_sizes() {
    assert_eq!(sealed_jar_for(100_000_000), Some(SEALED_JAR_100M));
    assert_eq!(sealed_jar_for(500_000_000), Some(SEALED_JAR_500M));
    assert_eq!(sealed_jar_for(1_000_000_000), Some(SEALED_JAR_1B));
    assert_eq!(sealed_jar_for(200_000_000), None);
    assert_eq!(sealed_jar_for(0), None);
}

#[test]
fn potion_granted() {
    let inv = bag_with_jar(5);
    assert_eq!(
        check_sealed_potion(SEALED_JAR, 5, 500_000_000, &inv, 600_000_000, &all_jars()),
        Some((SLOT_MAX + 5, SEALED_JAR_500M))
    );
}

#[test]
fn potion_refusals() {
    let inv = bag_with_jar(5);
    // not the empty jar
    assert_eq!(check_sealed_potion(1, 5, 500_000_000, &inv, 600_000_000, &all_jars()), None);
    // no jar at that position
    assert_eq!(check_sealed_potion(SEALED_JAR, 6, 500_000_000, &inv, 600_000_000, &all_jars()), None);
    // more than the pool
    assert_eq!(check_sealed_potion(SEALED_JAR, 5, 500_000_000, &inv, 400_000_000, &all_jars()), None);
    // not a jar size
    assert_eq!(check_sealed_potion(SEALED_JAR, 5, 300_000_000, &inv, 600_000_000, &all_jars()), None);
    // the filled jar is not in the item table
    assert_eq!(check_sealed_potion(SEALED_JAR, 5, 500_000_000, &inv, 600_000_000, &vec![SEALED_JAR_1B]), None);
    // position past the inventory
    assert_eq!(check_sealed_potion(SEALED_JAR, 200, 500_000_000, &inv, 600_000_000, &all_jars()), None);
}

#[test]
fn placed_position_is_counted_from_the_bag() {
    let mut inv = vec![ItemSlot::empty(); 42];
    inv[2] = ItemSlot::holding(SEALED_JAR_1B, 1);
    inv[SLOT_MAX + 7] = ItemSlot::holding(SEALED_JAR_1B, 1);
    inv[SLOT_MAX + 9] = ItemSlot::holding(SEALED_JAR_1B, 1);
    assert_eq!(find_placed_position(&inv, SEALED_JAR_1B), 7);
    assert_eq!(find_placed_position(&inv, SEALED_JAR_100M), 0);
}
