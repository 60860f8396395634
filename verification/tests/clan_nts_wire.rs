use ko_game::clan_nts::{EXT_HOOK_S2C, EXT_SUB_MESSAGE, build_ext_hook_message};

#[test]
fn test_ext_hook_message_packet_format() {
    let pkt = build_ext_hook_message("Title", "Message");
    assert_eq!(pkt.opcode, EXT_HOOK_S2C);
    // [0xBE] [u16 len] [title bytes] [u16 len] [message bytes]
    assert_eq!(pkt.data[0], EXT_SUB_MESSAGE);
    // Title "Title" = 5 bytes → u16 LE = [5, 0]
    assert_eq!(pkt.data[1], 5);
    assert_eq!(pkt.data[2], 0);
    assert_eq!(&pkt.data[3..8], b"Title");
    // Message "Message" = 7 bytes → u16 LE = [7, 0]
    assert_eq!(pkt.data[8], 7);
    assert_eq!(pkt.data[9], 0);
    assert_eq!(&pkt.data[10..17], b"Message");
}
