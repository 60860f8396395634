use ko_game::item_remove::{WIZ_ITEM_REMOVE};
use ko_game::packet::{Packet, PacketReader};

#[test]
fn test_c2s_item_remove_packet_format() {
    // C2S: [u8 type] [u8 pos] [u32 item_id]
    let mut pkt = Packet::new(WIZ_ITEM_REMOVE);
    pkt.write_u8(0); // type=inventory bag
    pkt.write_u8(5); // pos
    pkt.write_u32(379006001); // item_id

    assert_eq!(pkt.opcode, WIZ_ITEM_REMOVE);
    assert_eq!(pkt.data.len(), 6); // 1 + 1 + 4

    let mut r = PacketReader::new(&pkt.data);
    assert_eq!(r.read_u8(), Some(0));
    assert_eq!(r.read_u8(), Some(5));
    assert_eq!(r.read_u32(), Some(379006001));
    assert_eq!(r.remaining(), 0);
}

#[test]
fn test_s2c_item_remove_success_response() {
    let mut pkt = Packet::new(WIZ_ITEM_REMOVE);
    pkt.write_u8(1); // success
    assert_eq!(pkt.data.len(), 1);
    assert_eq!(pkt.data[0], 1);
}

#[test]
fn test_s2c_item_remove_fail_response() {
    let mut pkt = Packet::new(WIZ_ITEM_REMOVE);
    pkt.write_u8(0); // fail
    assert_eq!(pkt.data.len(), 1);
    assert_eq!(pkt.data[0], 0);
}

#[test]
fn test_item_remove_opcode_value() {
    assert_eq!(WIZ_ITEM_REMOVE, 0x3F);
}

#[test]
fn test_item_remove_c2s_data_length() {
    let mut pkt = Packet::new(WIZ_ITEM_REMOVE);
    pkt.write_u8(0);
    pkt.write_u8(5);
    pkt.write_u32(379006001);
    assert_eq!(pkt.data.len(), 6);
}

#[test]
fn test_item_remove_response_data_length() {
    let mut s = Packet::new(WIZ_ITEM_REMOVE);
    s.write_u8(1);
    assert_eq!(s.data.len(), 1);

    let mut f = Packet::new(WIZ_ITEM_REMOVE);
    f.write_u8(0);
    assert_eq!(f.data.len(), 1);
}

#[test]
fn test_item_remove_type3_roundtrip() {
    let mut pkt = Packet::new(WIZ_ITEM_REMOVE);
    pkt.write_u8(3); // COSP type
    pkt.write_u8(2); // pos
    pkt.write_u32(810001000);

    let mut r = PacketReader::new(&pkt.data);
    assert_eq!(r.read_u8(), Some(3));
    assert_eq!(r.read_u8(), Some(2));
    assert_eq!(r.read_u32(), Some(810001000));
    assert_eq!(r.remaining(), 0);
}
