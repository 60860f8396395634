use ko_game::character_seal::{ITEM_CHARACTER_SEAL, ITEM_CYPHER_RING, ITEM_SEAL_SCROLL, SEAL_ACHIEVE_LIST, SEAL_ECHO, SEAL_PREVIEW, SEAL_SHOW_LIST, SEAL_USE_RING, SEAL_USE_SCROLL, WIZ_ITEM_UPGRADE};
use ko_game::packet::{Packet, PacketReader};

#[test]
fn test_echo_packet_format() {
    let mut pkt = Packet::new(WIZ_ITEM_UPGRADE);
    pkt.write_u8(ITEM_CHARACTER_SEAL);
    pkt.write_u8(SEAL_ECHO);
    assert_eq!(pkt.opcode, WIZ_ITEM_UPGRADE);
    assert_eq!(pkt.data[0], ITEM_CHARACTER_SEAL);
    assert_eq!(pkt.data[1], SEAL_ECHO);
    assert_eq!(pkt.data.len(), 2);
}

#[test]
fn test_show_list_error_packet() {
    let mut pkt = Packet::new(WIZ_ITEM_UPGRADE);
    pkt.write_u8(ITEM_CHARACTER_SEAL);
    pkt.write_u8(SEAL_USE_SCROLL);
    pkt.write_u16(0); // error
    assert_eq!(pkt.data.len(), 4);
    assert_eq!(pkt.data[2], 0);
    assert_eq!(pkt.data[3], 0);
}

#[test]
fn test_preview_error_packet() {
    let mut pkt = Packet::new(WIZ_ITEM_UPGRADE);
    pkt.write_u8(ITEM_CHARACTER_SEAL);
    pkt.write_u8(SEAL_PREVIEW);
    pkt.write_u8(2); // error code
    assert_eq!(pkt.data.len(), 3);
    assert_eq!(pkt.data[2], 2);
}

#[test]
fn test_use_ring_success_packet() {
    let mut pkt = Packet::new(WIZ_ITEM_UPGRADE);
    pkt.write_u8(ITEM_CHARACTER_SEAL);
    pkt.write_u8(SEAL_USE_RING);
    pkt.write_u8(1); // success
    pkt.write_u8(5); // src_slot
    pkt.write_u32(0);
    assert_eq!(pkt.data.len(), 8); // 2 header + 1 success + 1 slot + 4 padding
    assert_eq!(pkt.data[2], 1); // success
    assert_eq!(pkt.data[3], 5); // slot
}

#[test]
fn test_achieve_list_empty_packet() {
    let mut pkt = Packet::new(WIZ_ITEM_UPGRADE);
    pkt.write_u8(ITEM_CHARACTER_SEAL);
    pkt.write_u8(SEAL_ACHIEVE_LIST);
    pkt.write_u8(1);
    pkt.write_u32(0);
    assert_eq!(pkt.data.len(), 7);
    assert_eq!(pkt.data[2], 1); // success
                                // count = 0 (4 bytes LE)
    assert_eq!(&pkt.data[3..7], &[0, 0, 0, 0]);
}

#[test]
fn test_use_scroll_success_packet() {
    let mut pkt = Packet::new(WIZ_ITEM_UPGRADE);
    pkt.write_u8(ITEM_CHARACTER_SEAL);
    pkt.write_u8(SEAL_USE_SCROLL);
    pkt.write_u8(1); // success
    pkt.write_u8(3); // src_slot
    pkt.write_u32(ITEM_CYPHER_RING);
    pkt.write_u32(42); // unique_id
    pkt.write_sbyte_string("TestChar");
    pkt.write_u8(1); // class
    pkt.write_u8(70); // level
    pkt.write_u16(0);
    pkt.write_u8(12); // race
    pkt.write_u8(0);
    // Verify structure
    assert_eq!(pkt.data[0], ITEM_CHARACTER_SEAL);
    assert_eq!(pkt.data[1], SEAL_USE_SCROLL);
    assert_eq!(pkt.data[2], 1); // success
    assert_eq!(pkt.data[3], 3); // slot
}

#[test]
fn test_show_list_success_header() {
    let mut pkt = Packet::new(WIZ_ITEM_UPGRADE);
    pkt.write_u8(ITEM_CHARACTER_SEAL);
    pkt.write_u8(SEAL_SHOW_LIST);
    pkt.write_u8(1); // success
    assert_eq!(pkt.data[0], 9);
    assert_eq!(pkt.data[1], 1);
    assert_eq!(pkt.data[2], 1);
}

#[test]
fn test_show_list_empty_slot_format() {
    let mut pkt = Packet::new(WIZ_ITEM_UPGRADE);
    pkt.write_u8(ITEM_CHARACTER_SEAL);
    pkt.write_u8(SEAL_SHOW_LIST);
    pkt.write_u8(1);
    // 4 empty character slots
    for _ in 0..4 {
        pkt.write_sbyte_string(""); // 1 byte (len=0)
        pkt.write_u8(0); // race
        pkt.write_u8(0); // face
        pkt.write_u16(0); // class
        pkt.write_u8(0); // level
    }
    // header(3) + 4 * (1+1+1+2+1) = 3 + 24 = 27
    assert_eq!(pkt.data.len(), 27);
}

#[test]
fn test_use_scroll_c2s_format() {
    let mut pkt = Packet::new(WIZ_ITEM_UPGRADE);
    pkt.write_u8(ITEM_CHARACTER_SEAL);
    pkt.write_u8(SEAL_USE_SCROLL);
    pkt.write_u32(0); // unknown
    pkt.write_u8(5); // src_slot
    pkt.write_u32(ITEM_SEAL_SCROLL);
    pkt.write_string("AltChar");
    pkt.write_string("mypass");

    let mut r = PacketReader::new(&pkt.data);
    assert_eq!(r.read_u8(), Some(ITEM_CHARACTER_SEAL));
    assert_eq!(r.read_u8(), Some(SEAL_USE_SCROLL));
    assert_eq!(r.read_u32(), Some(0));
    assert_eq!(r.read_u8(), Some(5));
    assert_eq!(r.read_u32(), Some(ITEM_SEAL_SCROLL));
    assert_eq!(r.read_string(), Some(b"AltChar".to_vec()));
    assert_eq!(r.read_string(), Some(b"mypass".to_vec()));
}

#[test]
fn test_use_ring_c2s_format() {
    let mut pkt = Packet::new(WIZ_ITEM_UPGRADE);
    pkt.write_u8(ITEM_CHARACTER_SEAL);
    pkt.write_u8(SEAL_USE_RING);
    pkt.write_u32(0);
    pkt.write_u8(2); // src_slot
    pkt.write_u32(ITEM_CYPHER_RING);
    pkt.write_u8(3); // target_slot

    let mut r = PacketReader::new(&pkt.data);
    assert_eq!(r.read_u8(), Some(ITEM_CHARACTER_SEAL));
    assert_eq!(r.read_u8(), Some(SEAL_USE_RING));
    assert_eq!(r.read_u32(), Some(0));
    assert_eq!(r.read_u8(), Some(2));
    assert_eq!(r.read_u32(), Some(ITEM_CYPHER_RING));
    assert_eq!(r.read_u8(), Some(3));
    assert_eq!(r.remaining(), 0);
}

#[test]
fn test_use_ring_slot_occupied_error() {
    let mut pkt = Packet::new(WIZ_ITEM_UPGRADE);
    pkt.write_u8(ITEM_CHARACTER_SEAL);
    pkt.write_u8(SEAL_USE_RING);
    pkt.write_u16(3); // error: slot occupied
    assert_eq!(pkt.data.len(), 4);
    // u16(3) little-endian = [3, 0]
    assert_eq!(pkt.data[2], 3);
    assert_eq!(pkt.data[3], 0);
}

#[test]
fn test_preview_c2s_format() {
    let mut pkt = Packet::new(WIZ_ITEM_UPGRADE);
    pkt.write_u8(ITEM_CHARACTER_SEAL);
    // sub-opcode is part of higher-level dispatch, but we can verify unique_id encoding
    pkt.write_u32(12345);
    let mut r = PacketReader::new(&pkt.data);
    assert_eq!(r.read_u8(), Some(ITEM_CHARACTER_SEAL));
    assert_eq!(r.read_u32(), Some(12345));
}
