use ko_game::edit_box::{PPCARD_FAILED, PPCARD_SUCCESS, WIZ_EDIT_BOX, build_ppcard_result};
use ko_game::packet::{Packet, PacketReader};

#[test]
fn test_ppcard_request_format() {
    // Client -> Server: [u8 4] [i32 key_prefix] [sbyte_string key_suffix]
    let mut pkt = Packet::new(WIZ_EDIT_BOX);
    pkt.write_u8(4); // opcode
    pkt.write_i32(1234); // key prefix
    pkt.write_sbyte_string("ABCDEFGHIJKLMNOP"); // 16-char key suffix

    let mut r = PacketReader::new(&pkt.data);
    assert_eq!(r.read_u8(), Some(4));
    assert_eq!(r.read_i32(), Some(1234));
    assert_eq!(r.read_sbyte_string(), Some(b"ABCDEFGHIJKLMNOP".to_vec()));
    assert_eq!(r.remaining(), 0);
}

#[test]
fn test_ppcard_fail_response() {
    let pkt = build_ppcard_result(PPCARD_FAILED);
    assert_eq!(pkt.opcode, 0x59);

    let mut r = PacketReader::new(&pkt.data);
    assert_eq!(r.read_u8(), Some(4)); // opcode
    assert_eq!(r.read_u8(), Some(2)); // PPCARD_FAILED
    assert_eq!(r.remaining(), 0);
}

#[test]
fn test_ppcard_success_response() {
    let pkt = build_ppcard_result(PPCARD_SUCCESS);
    let mut r = PacketReader::new(&pkt.data);
    assert_eq!(r.read_u8(), Some(4));
    assert_eq!(r.read_u8(), Some(1)); // PPCARD_SUCCESS
    assert_eq!(r.remaining(), 0);
}

#[test]
fn test_ppcard_result_data_length() {
    let pkt = build_ppcard_result(PPCARD_SUCCESS);
    assert_eq!(pkt.data.len(), 2);
    let pkt2 = build_ppcard_result(PPCARD_FAILED);
    assert_eq!(pkt2.data.len(), 2);
}

#[test]
fn test_ppcard_c2s_data_length() {
    let mut pkt = Packet::new(WIZ_EDIT_BOX);
    pkt.write_u8(4);
    pkt.write_i32(1234);
    pkt.write_sbyte_string("ABCDEFGHIJKLMNOP");
    assert_eq!(pkt.data.len(), 22);
}
