use ko_game::clanpoints_battle::{STRING_SUB_2_5, WIZ_CLANPOINTS_BATTLE, build_notification};
use ko_game::packet::{Packet, PacketReader};

#[test]
fn test_build_notification_opcode() {
    let pkt = build_notification(0);
    assert_eq!(pkt.opcode, WIZ_CLANPOINTS_BATTLE);
}

#[test]
fn test_build_notification_format() {
    let pkt = build_notification(3);
    let mut r = PacketReader::new(&pkt.data);
    assert_eq!(r.read_u8(), Some(1)); // type=1
    assert_eq!(r.read_u8(), Some(3)); // sub
    assert_eq!(r.remaining(), 0);
}

#[test]
fn test_build_notification_all_subs() {
    for sub in 0..=5 {
        let pkt = build_notification(sub);
        assert_eq!(pkt.opcode, 0x91);
        assert_eq!(pkt.data.len(), 2); // type + sub
    }
}

#[test]
fn test_build_notification_data_length() {
    assert_eq!(build_notification(0).data.len(), 2);
}

#[test]
fn test_clan_disband_notification_sub_0() {
    let pkt = build_notification(0);
    let mut r = PacketReader::new(&pkt.data);
    assert_eq!(r.read_u8(), Some(1)); // type
    assert_eq!(r.read_u8(), Some(0)); // sub=0 → string 25051
}

#[test]
fn test_clanpoints_battle_opcode_value() {
    assert_eq!(WIZ_CLANPOINTS_BATTLE, 0x91);
}

#[test]
fn test_clanpoints_battle_type_always_one() {
    for sub in 0..=5u8 {
        let pkt = build_notification(sub);
        assert_eq!(pkt.data[0], 1, "type must be 1 for sub={sub}");
    }
}

#[test]
fn test_clanpoints_battle_sub2_sub5_same_string() {
    assert_eq!(STRING_SUB_2_5, 1511);
    // Both sub=2 and sub=5 map to string 1511
    let pkt2 = build_notification(2);
    let pkt5 = build_notification(5);
    assert_eq!(pkt2.data[1], 2);
    assert_eq!(pkt5.data[1], 5);
}

#[test]
fn test_clanpoints_battle_roundtrip_all_subs() {
    for sub in 0..=5u8 {
        let pkt = build_notification(sub);
        let mut r = PacketReader::new(&pkt.data);
        assert_eq!(r.read_u8(), Some(1));
        assert_eq!(r.read_u8(), Some(sub));
        assert_eq!(r.remaining(), 0);
    }
}

#[test]
fn test_clanpoints_battle_s2c_only() {
    // No C2S handler exists — this is purely server-initiated.
    // Packet is always 2 bytes (type + sub).
    let pkt = build_notification(0);
    assert_eq!(pkt.data.len(), 2);
}
