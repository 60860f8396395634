use ko_game::concurrent_user::{WIZ_CONCURRENT_USER};
use ko_game::packet::{Packet, PacketReader};

#[test]
fn test_concurrent_user_response_format() {
    // Response: [u16 count]
    let count: u16 = 350;
    let mut pkt = Packet::new(WIZ_CONCURRENT_USER);
    pkt.write_u16(count);

    assert_eq!(pkt.opcode, WIZ_CONCURRENT_USER);
    let mut reader = PacketReader::new(&pkt.data);
    assert_eq!(reader.read_u16(), Some(350));
    assert_eq!(reader.remaining(), 0);
}

#[test]
fn test_concurrent_user_opcode_value() {
    assert_eq!(WIZ_CONCURRENT_USER, 0x36);
}

#[test]
fn test_concurrent_user_response_data_length() {
    let mut pkt = Packet::new(WIZ_CONCURRENT_USER);
    pkt.write_u16(100);
    assert_eq!(pkt.data.len(), 2);
}

#[test]
fn test_concurrent_user_c2s_empty() {
    let pkt = Packet::new(WIZ_CONCURRENT_USER);
    assert!(pkt.data.is_empty());
}

#[test]
fn test_concurrent_user_zero_count() {
    let mut pkt = Packet::new(WIZ_CONCURRENT_USER);
    pkt.write_u16(0);
    let mut reader = PacketReader::new(&pkt.data);
    assert_eq!(reader.read_u16(), Some(0));
}

#[test]
fn test_concurrent_user_max_count() {
    let mut pkt = Packet::new(WIZ_CONCURRENT_USER);
    pkt.write_u16(u16::MAX);
    let mut reader = PacketReader::new(&pkt.data);
    assert_eq!(reader.read_u16(), Some(u16::MAX));
}

#[test]
fn test_concurrent_user_dispatch_range() {
    let op = WIZ_CONCURRENT_USER;
    assert!(op >= 0x06 && op <= 0xD7);
}

#[test]
fn test_concurrent_user_count_roundtrip() {
    for count in [0u16, 1, 100, 500, 1000, u16::MAX] {
        let mut pkt = Packet::new(WIZ_CONCURRENT_USER);
        pkt.write_u16(count);
        let mut r = PacketReader::new(&pkt.data);
        assert_eq!(r.read_u16(), Some(count));
        assert_eq!(r.remaining(), 0);
    }
}
