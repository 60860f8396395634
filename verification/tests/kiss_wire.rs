use ko_game::kiss::{WIZ_KISS, build_kiss_packet};
use ko_game::packet::{PacketReader};

#[test]
fn test_kiss_opcode_value() {
    assert_eq!(WIZ_KISS, 0x66);
}

#[test]
fn test_kiss_packet_format() {
    let pkt = build_kiss_packet(12345, 100);
    assert_eq!(pkt.opcode, WIZ_KISS);
    let mut reader = PacketReader::new(&pkt.data);
    assert_eq!(reader.read_u32(), Some(12345));
    assert_eq!(reader.read_i16(), Some(100));
    assert_eq!(reader.remaining(), 0);
}

#[test]
fn test_kiss_packet_negative_npc_id() {
    let pkt = build_kiss_packet(1, -1);
    let mut reader = PacketReader::new(&pkt.data);
    assert_eq!(reader.read_u32(), Some(1));
    assert_eq!(reader.read_i16(), Some(-1));
}

#[test]
fn test_kiss_packet_data_length() {
    // u32(4) + i16(2) = 6 bytes
    let pkt = build_kiss_packet(0, 0);
    assert_eq!(pkt.data.len(), 6);
}

#[test]
fn test_kiss_packet_roundtrip_various() {
    for (pid, nid) in [(0u32, 0i16), (u32::MAX, i16::MAX), (500, -500)] {
        let pkt = build_kiss_packet(pid, nid);
        let mut r = PacketReader::new(&pkt.data);
        assert_eq!(r.read_u32(), Some(pid));
        assert_eq!(r.read_i16(), Some(nid));
        assert_eq!(r.remaining(), 0);
    }
}
