use ko_game::item_repair::{WIZ_ITEM_REPAIR};
use ko_game::packet::{Packet, PacketReader};

#[test]
fn test_packet_format_npc_id_u32() {
    // The NPC id is a 32-bit field.
    let mut pkt = Packet::new(WIZ_ITEM_REPAIR);
    pkt.write_u8(1); // pos_type
    pkt.write_u8(0); // slot
    pkt.write_u32(12345); // npc_id (u32, NOT u16)
    pkt.write_u32(100001); // item_id

    let mut reader = PacketReader::new(&pkt.data);
    let pos_type = reader.read_u8().unwrap();
    let slot = reader.read_u8().unwrap();
    let npc_id = reader.read_u32().unwrap(); // must be u32
    let item_id = reader.read_u32().unwrap();

    assert_eq!(pos_type, 1);
    assert_eq!(slot, 0);
    assert_eq!(npc_id, 12345);
    assert_eq!(item_id, 100001);
}

#[test]
fn test_repair_success_packet_format() {
    let mut pkt = Packet::new(WIZ_ITEM_REPAIR);
    pkt.write_u8(1); // success
    pkt.write_u32(50000); // gold

    let mut reader = PacketReader::new(&pkt.data);
    assert_eq!(reader.read_u8().unwrap(), 1);
    assert_eq!(reader.read_u32().unwrap(), 50000);
}

#[test]
fn test_repair_fail_packet_format() {
    let mut pkt = Packet::new(WIZ_ITEM_REPAIR);
    pkt.write_u8(0); // fail
    pkt.write_u32(100000); // gold

    let mut reader = PacketReader::new(&pkt.data);
    assert_eq!(reader.read_u8().unwrap(), 0);
    assert_eq!(reader.read_u32().unwrap(), 100000);
}

#[test]
fn test_item_repair_c2s_data_length() {
    let mut pkt = Packet::new(WIZ_ITEM_REPAIR);
    pkt.write_u8(1); // pos_type
    pkt.write_u8(0); // slot
    pkt.write_u32(12345); // npc_id
    pkt.write_u32(100001); // item_id
    assert_eq!(pkt.data.len(), 10);
}

#[test]
fn test_item_repair_response_data_length() {
    let mut success = Packet::new(WIZ_ITEM_REPAIR);
    success.write_u8(1);
    success.write_u32(50000);
    assert_eq!(success.data.len(), 5);

    let mut fail = Packet::new(WIZ_ITEM_REPAIR);
    fail.write_u8(0);
    fail.write_u32(50000);
    assert_eq!(fail.data.len(), 5);
}

#[test]
fn test_repair_uses_silent_gold_deduction() {
    // The repair reply carries the updated gold itself, so the gold is
    // deducted without a separate gold-change notice.
    let gold: u32 = 10000;
    let cost: u32 = 500;
    // Silent deduction: gold changes but no packet
    let new_gold = gold - cost;
    assert_eq!(new_gold, 9500);
    // The response packet embeds gold directly:
    let mut pkt = Packet::new(WIZ_ITEM_REPAIR);
    pkt.write_u8(1); // success
    pkt.write_u32(new_gold);
    let mut r = PacketReader::new(&pkt.data);
    assert_eq!(r.read_u8(), Some(1));
    assert_eq!(r.read_u32(), Some(9500));
}
