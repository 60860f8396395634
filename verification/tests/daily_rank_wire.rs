use ko_game::daily_rank::{DAILY_RANK_DRAKI, DAILY_RANK_GRAND_MERCHANT, DAILY_RANK_KING_OF_FELANKOR, WIZ_DAILY_RANK};
use ko_game::packet::{Packet};

#[test]
fn test_empty_daily_rank_packet_format() {
    // Non-Draki empty: sub(1) + rank_type(1) + rank(4) + diff(4) + count(2) = 12
    let mut pkt = Packet::new(WIZ_DAILY_RANK);
    pkt.write_u8(1);
    pkt.write_u8(DAILY_RANK_GRAND_MERCHANT);
    pkt.write_u32(0);
    pkt.write_u32(0); // diff present for non-Draki
    pkt.write_u16(0);

    assert_eq!(pkt.opcode, 0xC2);
    assert_eq!(pkt.data.len(), 12);
    assert_eq!(pkt.data[0], 1);
    assert_eq!(pkt.data[1], DAILY_RANK_GRAND_MERCHANT);
}

#[test]
fn test_empty_draki_rank_packet_format() {
    // Draki empty: sub(1) + rank_type(1) + rank(4) + count(2) = 8 (NO diff field)
    let mut pkt = Packet::new(WIZ_DAILY_RANK);
    pkt.write_u8(1);
    pkt.write_u8(DAILY_RANK_DRAKI);
    pkt.write_u32(0);
    // No diff for Draki
    pkt.write_u16(0);

    assert_eq!(pkt.opcode, 0xC2);
    assert_eq!(pkt.data.len(), 8); // 4 bytes shorter than non-Draki
    assert_eq!(pkt.data[1], DAILY_RANK_DRAKI);
}

#[test]
fn test_sbyte_string_in_rank_packet() {
    let mut pkt = Packet::new(WIZ_DAILY_RANK);
    pkt.write_u8(1);
    pkt.write_u8(DAILY_RANK_GRAND_MERCHANT);
    pkt.write_u32(1); // my_rank
    pkt.write_u32(0); // diff
    pkt.write_u16(2); // count
    pkt.write_sbyte_string("TopPlayer");
    pkt.write_sbyte_string("SecondGuy");

    let data = &pkt.data;
    // After header (1+1+4+4+2 = 12 bytes), first sbyte string:
    assert_eq!(data[12], 9); // "TopPlayer" = 9 bytes (u8 length prefix)
    assert_eq!(&data[13..22], b"TopPlayer");
    assert_eq!(data[22], 9); // "SecondGuy" = 9 bytes
    assert_eq!(&data[23..32], b"SecondGuy");
}

#[test]
fn test_clan_rank_packet_with_sbyte() {
    let mut pkt = Packet::new(WIZ_DAILY_RANK);
    pkt.write_u8(1);
    pkt.write_u8(DAILY_RANK_KING_OF_FELANKOR);
    pkt.write_u32(2); // my_rank
    pkt.write_u32(0); // diff
    pkt.write_u16(1); // count
    pkt.write_sbyte_string("TopClan");

    assert_eq!(pkt.opcode, 0xC2);
    let data = &pkt.data;
    // After header (12 bytes): sbyte string
    assert_eq!(data[12], 7); // "TopClan" = 7 bytes (u8 prefix, not u16)
    assert_eq!(&data[13..20], b"TopClan");
}
