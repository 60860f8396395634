use ko_game::class_change::{
    build_change_money, build_class_change_result, build_job_change_result, build_reb_result,
    build_reset_refused, build_skill_reset_success, build_stat_reset_success, ALL_POINT_CHANGE,
    ALL_SKILLPT_CHANGE, REB_STAT_RESET, WIZ_CLASS_CHANGE,
};
use ko_game::bifrost::{build_beef_time, BIFROST_EVENT, WIZ_BIFROST};
use ko_game::character_seal::{
    build_achieve_list, build_echo, build_preview, build_ring_error, build_scroll_error,
    build_show_list, build_use_ring_success, build_use_scroll_success, decode_sealed_inventory,
    SealListEntry, SealPreview, SealedSummary, ITEM_CHARACTER_SEAL, ITEM_CYPHER_RING,
    SEAL_PREVIEW, SEAL_SHOW_LIST, SEAL_USE_SCROLL, WIZ_ITEM_UPGRADE,
};
use ko_game::concurrent_user::{build_user_count, WIZ_CONCURRENT_USER};
use ko_game::daily_rank::{
    build_empty_rank_reply, build_rank_reply, DAILY_RANK_DRAKI, DAILY_RANK_GRAND_MERCHANT,
    WIZ_DAILY_RANK,
};
use ko_game::exp_seal::{
    build_potion_fail, build_potion_result, build_seal_status, build_sealed_exp_update,
    SEALED_JAR_500M, WIZ_EXP_SEAL,
};
use ko_game::friend::{
    build_friend_list, build_friend_modify_result, FriendEntry, FRIEND_ADD, FRIEND_ADD_SUCCESS,
    FRIEND_REPORT, WIZ_FRIEND_PROCESS,
};
use ko_game::item_remove::{build_remove_result, WIZ_ITEM_REMOVE};
use ko_game::item_repair::{build_repair_result, WIZ_ITEM_REPAIR};
use ko_game::packet::PacketReader;

#[test]
fn seal_error_and_echo_replies() {
    let e = build_scroll_error();
    assert_eq!(e.opcode, WIZ_ITEM_UPGRADE);
    assert_eq!(e.data, vec![9, 2, 0, 0]);
    assert_eq!(build_ring_error(3).data, vec![9, 3, 3, 0]);
    assert_eq!(build_echo().data, vec![9, 5]);
    assert_eq!(build_achieve_list().data, vec![9, 6, 1, 0, 0, 0, 0]);
    assert_eq!(build_use_ring_success(5).data, vec![9, 3, 1, 5, 0, 0, 0, 0]);
}

#[test]
fn seal_scroll_success_reply() {
    let summary = SealedSummary { name: "TestChar".to_string(), class: 1, level: 70, race: 12 };
    let pkt = build_use_scroll_success(3, 42, Some(&summary), "TestChar");
    let mut r = PacketReader::new(&pkt.data);
    assert_eq!(r.read_u8(), Some(ITEM_CHARACTER_SEAL));
    assert_eq!(r.read_u8(), Some(SEAL_USE_SCROLL));
    assert_eq!(r.read_u8(), Some(1));
    assert_eq!(r.read_u8(), Some(3));
    assert_eq!(r.read_u32(), Some(ITEM_CYPHER_RING));
    assert_eq!(r.read_u32(), Some(42));
    assert_eq!(r.read_sbyte_string(), Some(b"TestChar".to_vec()));
    assert_eq!(r.read_u8(), Some(1));
    assert_eq!(r.read_u8(), Some(70));
    assert_eq!(r.read_u16(), Some(0));
    assert_eq!(r.read_u8(), Some(12));
    assert_eq!(r.read_u8(), Some(0));
    assert_eq!(r.remaining(), 0);

    let unknown = build_use_scroll_success(3, 42, None, "Alt");
    assert_eq!(&unknown.data[12..], &[3, b'A', b'l', b't', 0, 0, 0, 0, 0, 0]);
}

#[test]
fn seal_list_reply() {
    let entries = vec![
        SealListEntry { name: "Main".to_string(), race: 1, face: 2, class: 101, level: 83 },
        SealListEntry { name: String::new(), race: 0, face: 0, class: 0, level: 0 },
    ];
    let pkt = build_show_list(&entries);
    let mut r = PacketReader::new(&pkt.data);
    assert_eq!(r.read_u8(), Some(ITEM_CHARACTER_SEAL));
    assert_eq!(r.read_u8(), Some(SEAL_SHOW_LIST));
    assert_eq!(r.read_u8(), Some(1));
    assert_eq!(r.read_sbyte_string(), Some(b"Main".to_vec()));
    assert_eq!(r.read_u8(), Some(1));
    assert_eq!(r.read_u8(), Some(2));
    assert_eq!(r.read_u16(), Some(101));
    assert_eq!(r.read_u8(), Some(83));
    assert_eq!(r.read_sbyte_string(), Some(Vec::new()));
    assert_eq!(r.remaining(), 5);
}

#[test]
fn seal_preview_reply() {
    let none = build_preview(None, &Vec::new());
    assert_eq!(none.data, vec![ITEM_CHARACTER_SEAL, SEAL_PREVIEW, 2]);

    let p = SealPreview {
        name: "Alt".to_string(),
        race: 12,
        class: 201,
        level: 60,
        loyalty: 1000,
        strength: 60,
        stamina: 70,
        dexterity: 80,
        intelligence: 90,
        charisma: 50,
        gold: 123456,
        free_points: 3,
        skill_cat1: 10,
        skill_cat2: 20,
        skill_cat3: 30,
        skill_master: 4,
    };
    let mut record = Vec::new();
    record.extend_from_slice(&389010000u32.to_le_bytes());
    record.extend_from_slice(&(-2i16).to_le_bytes());
    record.extend_from_slice(&7u16.to_le_bytes());
    record.push(1);
    let items = decode_sealed_inventory(&Some(record));
    let pkt = build_preview(Some(&p), &items);
    // header 3 + name 4 + fixed fields 27 + 42 items of 9 bytes
    assert_eq!(pkt.data.len(), 3 + 4 + 27 + 42 * 9);
    let mut r = PacketReader::new(&pkt.data);
    r.read_u8();
    r.read_u8();
    assert_eq!(r.read_u8(), Some(1));
    assert_eq!(r.read_sbyte_string(), Some(b"Alt".to_vec()));
    assert_eq!(r.read_u8(), Some(1));
    assert_eq!(r.read_u8(), Some(12));
    assert_eq!(r.read_u16(), Some(201));
    assert_eq!(r.read_u8(), Some(60));
    assert_eq!(r.read_u32(), Some(1000));
    for v in [60u8, 70, 80, 90, 50] {
        assert_eq!(r.read_u8(), Some(v));
    }
    assert_eq!(r.read_u32(), Some(123456));
    assert_eq!(r.read_u8(), Some(3));
    assert_eq!(r.read_u32(), Some(1));
    for v in [10u8, 20, 30, 4] {
        assert_eq!(r.read_u8(), Some(v));
    }
    assert_eq!(r.read_u32(), Some(389010000));
    assert_eq!(r.read_i16(), Some(-2));
    assert_eq!(r.read_u16(), Some(7));
    assert_eq!(r.read_u8(), Some(1));
    assert_eq!(r.read_u32(), Some(0));
}

#[test]
fn exp_seal_replies() {
    let on = build_seal_status(true);
    assert_eq!(on.opcode, WIZ_EXP_SEAL);
    assert_eq!(on.data, vec![1, 1]);
    assert_eq!(build_seal_status(false).data, vec![2, 1]);
    assert_eq!(build_potion_fail().data, vec![3]);
    let pkt = build_potion_result(SEALED_JAR_500M, 5, 500_000_000);
    let mut r = PacketReader::new(&pkt.data);
    assert_eq!(r.read_u8(), Some(3));
    assert_eq!(r.read_u32(), Some(SEALED_JAR_500M));
    assert_eq!(r.read_u8(), Some(5));
    assert_eq!(r.read_u32(), Some(500_000_000));
    assert_eq!(r.read_u32(), Some(0));
    assert_eq!(r.remaining(), 0);
    let upd = build_sealed_exp_update(750_000_000);
    let mut r = PacketReader::new(&upd.data);
    assert_eq!(r.read_u8(), Some(4));
    assert_eq!(r.read_u32(), Some(750_000_000));
    assert_eq!(r.read_u32(), Some(0));
}

#[test]
fn item_result_replies() {
    let ok = build_repair_result(true, 50000);
    assert_eq!(ok.opcode, WIZ_ITEM_REPAIR);
    assert_eq!(ok.data, vec![1, 0x50, 0xC3, 0, 0]);
    assert_eq!(build_repair_result(false, 1).data, vec![0, 1, 0, 0, 0]);
    let removed = build_remove_result(true);
    assert_eq!(removed.opcode, WIZ_ITEM_REMOVE);
    assert_eq!(removed.data, vec![1]);
    assert_eq!(build_remove_result(false).data, vec![0]);
}

#[test]
fn friend_replies() {
    let m = build_friend_modify_result(FRIEND_ADD, FRIEND_ADD_SUCCESS, "TestFriend", -1, 0);
    assert_eq!(m.opcode, WIZ_FRIEND_PROCESS);
    let mut r = PacketReader::new(&m.data);
    assert_eq!(r.read_u8(), Some(FRIEND_ADD));
    assert_eq!(r.read_u8(), Some(FRIEND_ADD_SUCCESS));
    assert_eq!(r.read_string(), Some(b"TestFriend".to_vec()));
    assert_eq!(r.read_u32(), Some(0xFFFF_FFFF));
    assert_eq!(r.read_u8(), Some(0));

    let list = vec![
        FriendEntry { name: "Warrior01".to_string(), sid: 100, status: 1 },
        FriendEntry { name: "Mage02".to_string(), sid: -1, status: 0 },
    ];
    let pkt = build_friend_list(FRIEND_REPORT, &list);
    let mut r = PacketReader::new(&pkt.data);
    assert_eq!(r.read_u8(), Some(FRIEND_REPORT));
    assert_eq!(r.read_u16(), Some(2));
    assert_eq!(r.read_string(), Some(b"Warrior01".to_vec()));
    assert_eq!(r.read_i32(), Some(100));
    assert_eq!(r.read_u8(), Some(1));
    assert_eq!(r.read_string(), Some(b"Mage02".to_vec()));
    assert_eq!(r.read_i32(), Some(-1));
    assert_eq!(r.read_u8(), Some(0));
    assert_eq!(r.remaining(), 0);
}

#[test]
fn rank_replies() {
    let names = vec!["TopPlayer".to_string(), "SecondGuy".to_string()];
    let pkt = build_rank_reply(DAILY_RANK_GRAND_MERCHANT, 1, Some(-3), &names);
    assert_eq!(pkt.opcode, WIZ_DAILY_RANK);
    let data = &pkt.data;
    assert_eq!(&data[..2], &[1, DAILY_RANK_GRAND_MERCHANT]);
    assert_eq!(&data[2..6], &1u32.to_le_bytes());
    assert_eq!(&data[6..10], &(-3i32).to_le_bytes());
    assert_eq!(&data[10..12], &2u16.to_le_bytes());
    assert_eq!(data[12], 9);
    assert_eq!(&data[13..22], b"TopPlayer");
    let draki = build_rank_reply(DAILY_RANK_DRAKI, 2, None, &names);
    assert_eq!(draki.data.len(), pkt.data.len() - 4);
    assert_eq!(build_empty_rank_reply(DAILY_RANK_GRAND_MERCHANT).data.len(), 12);
    assert_eq!(build_empty_rank_reply(DAILY_RANK_DRAKI).data.len(), 8);
}

#[test]
fn bifrost_and_count_replies() {
    let b = build_beef_time(300);
    assert_eq!(b.opcode, WIZ_BIFROST);
    assert_eq!(b.data, vec![BIFROST_EVENT, 0x2C, 1, 0, 0]);
    let c = build_user_count(350);
    assert_eq!(c.opcode, WIZ_CONCURRENT_USER);
    assert_eq!(c.data, vec![0x5E, 0x01]);
}

#[test]
fn class_change_replies() {
    let r = build_class_change_result(3);
    assert_eq!(r.opcode, WIZ_CLASS_CHANGE);
    assert_eq!(r.data, vec![2, 3]);
    assert_eq!(build_reset_refused(ALL_POINT_CHANGE, 4, -1).data, vec![3, 4, 0xFF, 0xFF, 0xFF, 0xFF]);
    assert_eq!(build_change_money(1000).data, vec![5, 0xE8, 3, 0, 0]);
    assert_eq!(build_job_change_result(1).data, vec![6, 1]);
    assert_eq!(build_reb_result(REB_STAT_RESET, 2).data, vec![8, 2, 0, 0, 0, 0]);
    assert_eq!(build_skill_reset_success(7, 300).data, vec![ALL_SKILLPT_CHANGE, 1, 7, 0, 0, 0, 255]);
    let s = build_stat_reset_success(100, (60, 70, 80, 90, 50), 1500, -2, 12, 4000, 9);
    let mut rd = PacketReader::new(&s.data);
    assert_eq!(rd.read_u8(), Some(ALL_POINT_CHANGE));
    assert_eq!(rd.read_u8(), Some(1));
    assert_eq!(rd.read_u32(), Some(100));
    for v in [60u16, 70, 80, 90, 50] {
        assert_eq!(rd.read_u16(), Some(v));
    }
    assert_eq!(rd.read_i16(), Some(1500));
    assert_eq!(rd.read_i16(), Some(-2));
    assert_eq!(rd.read_u16(), Some(12));
    assert_eq!(rd.read_u32(), Some(4000));
    assert_eq!(rd.read_u16(), Some(9));
    assert_eq!(rd.remaining(), 0);
}
