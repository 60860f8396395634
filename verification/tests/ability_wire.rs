use ko_game::ability::{ABILITY_SUB_ERROR_DETAIL, ABILITY_SUB_INIT, ABILITY_SUB_ITEM_RESULT, ABILITY_SUB_LEVEL_UP, ABILITY_SUB_RESULT, ABILITY_SUB_SLOT_UPDATE, LEVEL_UP_FAILED, LEVEL_UP_SUCCESS, RESULT_CLOSE, RESULT_SUCCESS, WIZ_ABILITY, build_error_detail, build_init, build_init_empty, build_item_result_close, build_item_result_success, build_level_up_result, build_result, build_slot_update};
use ko_game::packet::{Packet, PacketReader};

#[test]
fn test_build_init_empty() {
    let pkt = build_init_empty();
    let mut r = PacketReader::new(&pkt.data);
    assert_eq!(r.read_u8(), Some(ABILITY_SUB_INIT));
    assert_eq!(r.read_u8(), Some(1)); // verify
    assert_eq!(r.read_u8(), Some(0)); // max_tier
    assert_eq!(r.read_u8(), Some(0)); // slot
    assert_eq!(r.read_u8(), Some(1)); // status = paused
    assert_eq!(r.read_u8(), Some(0)); // upgrade_count
    assert_eq!(r.read_u8(), Some(0)); // level
}

#[test]
fn test_build_init_tier_cap() {
    // max_tier capped to 9
    let pkt = build_init(15, 0, 0, 0, 0, 0.0f64.to_le_bytes());
    let mut r = PacketReader::new(&pkt.data);
    r.read_u8(); // sub
    r.read_u8(); // verify
    assert_eq!(r.read_u8(), Some(9)); // capped
}

#[test]
fn test_build_init_slot_wrap() {
    // selected_slot wraps at 24
    let pkt = build_init(0, 25, 0, 0, 0, 0.0f64.to_le_bytes());
    let mut r = PacketReader::new(&pkt.data);
    r.read_u8(); // sub
    r.read_u8(); // verify
    r.read_u8(); // tier
    assert_eq!(r.read_u8(), Some(1)); // 25 % 24 = 1
}

#[test]
fn test_build_init_level_cap() {
    // current_level capped to 9
    let pkt = build_init(0, 0, 0, 0, 12, 0.0f64.to_le_bytes());
    let mut r = PacketReader::new(&pkt.data);
    r.read_u8(); // sub
    r.read_u8(); // verify
    r.read_u8(); // tier
    r.read_u8(); // slot
    r.read_u8(); // status
    r.read_u8(); // upgrade_count
    assert_eq!(r.read_u8(), Some(9)); // capped
}

#[test]
fn test_build_result_close() {
    let pkt = build_result(RESULT_CLOSE);
    assert_eq!(pkt.opcode, 0xCF);

    let mut r = PacketReader::new(&pkt.data);
    assert_eq!(r.read_u8(), Some(ABILITY_SUB_RESULT));
    assert_eq!(r.read_u8(), Some(2)); // close
    assert_eq!(r.remaining(), 0);
}

#[test]
fn test_build_result_success() {
    let pkt = build_result(RESULT_SUCCESS);
    let mut r = PacketReader::new(&pkt.data);
    assert_eq!(r.read_u8(), Some(ABILITY_SUB_RESULT));
    assert_eq!(r.read_u8(), Some(3)); // success
}

#[test]
fn test_build_level_up_success() {
    let pkt = build_level_up_result(LEVEL_UP_SUCCESS);
    let mut r = PacketReader::new(&pkt.data);
    assert_eq!(r.read_u8(), Some(ABILITY_SUB_LEVEL_UP));
    assert_eq!(r.read_u8(), Some(1)); // success
    assert_eq!(r.remaining(), 0);
}

#[test]
fn test_build_level_up_failed() {
    let pkt = build_level_up_result(LEVEL_UP_FAILED);
    let mut r = PacketReader::new(&pkt.data);
    assert_eq!(r.read_u8(), Some(ABILITY_SUB_LEVEL_UP));
    assert_eq!(r.read_u8(), Some(2)); // failed
}

#[test]
fn test_build_error_detail() {
    let pkt = build_error_detail(42);
    let mut r = PacketReader::new(&pkt.data);
    assert_eq!(r.read_u8(), Some(ABILITY_SUB_ERROR_DETAIL));
    assert_eq!(r.read_u8(), Some(42));
    assert_eq!(r.remaining(), 0);
}

#[test]
fn test_build_item_result_close() {
    let pkt = build_item_result_close();
    assert_eq!(pkt.opcode, 0xCF);

    let mut r = PacketReader::new(&pkt.data);
    assert_eq!(r.read_u8(), Some(ABILITY_SUB_ITEM_RESULT));
    assert_eq!(r.read_u8(), Some(2)); // close
    assert_eq!(r.remaining(), 0);
}

#[test]
fn test_build_item_result_success() {
    let pkt = build_item_result_success(910252000);
    let mut r = PacketReader::new(&pkt.data);
    assert_eq!(r.read_u8(), Some(ABILITY_SUB_ITEM_RESULT));
    assert_eq!(r.read_u8(), Some(1)); // success
    assert_eq!(r.read_i32(), Some(910252000)); // item_id
    assert_eq!(r.read_u16(), Some(0)); // unused
    assert_eq!(r.remaining(), 0);
}

#[test]
fn test_build_slot_update() {
    let pkt = build_slot_update(5, 12, 0, 3);
    assert_eq!(pkt.opcode, 0xCF);

    let mut r = PacketReader::new(&pkt.data);
    assert_eq!(r.read_u8(), Some(ABILITY_SUB_SLOT_UPDATE));
    assert_eq!(r.read_u8(), Some(1)); // verify
    assert_eq!(r.read_u8(), Some(0)); // ignored
    assert_eq!(r.read_u8(), Some(5)); // max_tier
    assert_eq!(r.read_u8(), Some(12)); // selected_slot
    assert_eq!(r.read_u8(), Some(0)); // status
    assert_eq!(r.read_u8(), Some(3)); // upgrade_count
    assert_eq!(r.read_u8(), Some(0)); // field3
    assert_eq!(r.read_u8(), Some(0)); // field0
    assert_eq!(r.read_u8(), Some(0)); // field1
    assert_eq!(r.read_u8(), Some(0)); // field2
    assert_eq!(r.remaining(), 0);
}

#[test]
fn test_build_slot_update_data_length() {
    // u8 sub + u8 verify + u8 ignored + u8×4 params + u8×4 fields = 11
    let pkt = build_slot_update(0, 0, 0, 0);
    assert_eq!(pkt.data.len(), 11);
}

#[test]
fn test_c2s_open() {
    let mut pkt = Packet::new(WIZ_ABILITY);
    pkt.write_u8(1);
    assert_eq!(pkt.data.len(), 1);
}

#[test]
fn test_c2s_select_slot() {
    let mut pkt = Packet::new(WIZ_ABILITY);
    pkt.write_u8(2);
    pkt.write_u8(15); // slot_index

    let mut r = PacketReader::new(&pkt.data);
    assert_eq!(r.read_u8(), Some(2));
    assert_eq!(r.read_u8(), Some(15));
}

#[test]
fn test_c2s_upgrade() {
    let mut pkt = Packet::new(WIZ_ABILITY);
    pkt.write_u8(3);
    assert_eq!(pkt.data.len(), 1);
}

#[test]
fn test_c2s_progress_tick() {
    let mut pkt = Packet::new(WIZ_ABILITY);
    pkt.write_u8(4);
    pkt.write_u8(7); // current_step

    let mut r = PacketReader::new(&pkt.data);
    assert_eq!(r.read_u8(), Some(4));
    assert_eq!(r.read_u8(), Some(7));
}

#[test]
fn test_c2s_confirm() {
    let mut pkt = Packet::new(WIZ_ABILITY);
    pkt.write_u8(5);
    assert_eq!(pkt.data.len(), 1);
}

#[test]
fn test_build_init() {
    let pkt = build_init(3, 7, 0, 5, 4, 1800.0f64.to_le_bytes());
    assert_eq!(pkt.opcode, 0xCF);

    let mut r = PacketReader::new(&pkt.data);
    assert_eq!(r.read_u8(), Some(ABILITY_SUB_INIT)); // sub=1
    assert_eq!(r.read_u8(), Some(1)); // verify
    assert_eq!(r.read_u8(), Some(3)); // max_tier
    assert_eq!(r.read_u8(), Some(7)); // selected_slot
    assert_eq!(r.read_u8(), Some(0)); // status (active)
    assert_eq!(r.read_u8(), Some(5)); // upgrade_count
    assert_eq!(r.read_u8(), Some(4)); // current_level
    // f64 elapsed = 1800.0
    let mut f64_bytes = [0u8; 8];
    for b in &mut f64_bytes {
        *b = r.read_u8().unwrap();
    }
    let elapsed = f64::from_le_bytes(f64_bytes);
    assert!((elapsed - 1800.0).abs() < f64::EPSILON);
    assert_eq!(r.remaining(), 0);
}

#[test]
fn ability_test_build_init_data_length() {
    // u8 sub + u8 verify + u8×5 + f64(8) = 1+1+5+8 = 15
    let pkt = build_init(0, 0, 0, 0, 0, 0.0f64.to_le_bytes());
    assert_eq!(pkt.data.len(), 15);
}
