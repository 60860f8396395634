use ko_game::daily_rank::{
    chaos_win_counter, clan_rank_reply, collect_ranked, daily_stats_worth_saving,
    draki_rank_reply, get_rank_fields, rank_board, reply_has_diff, sort_ranked, user_daily_rank,
    ClanRankEntry, DailyRankRow, RankBoard, RankedName, DAILY_RANK_DISCIPLE_KERON,
    DAILY_RANK_DRAKI, DAILY_RANK_GRAND_MERCHANT, DAILY_RANK_HERO_OF_CHAOS,
    DAILY_RANK_KING_OF_FELANKOR, DAILY_RANK_KNIGHT_ADONIS, DAILY_RANK_MONSTER_HUNTER,
    DAILY_RANK_SHOZIN,
};

fn make_rank_row(name: &str, gm: i32, mh: i32, sh: i32, ak: i32, cw: i32, up: i32) -> DailyRankRow {
    DailyRankRow {
        char_id: name.to_string(),
        gm_rank_cur: gm,
        gm_rank_prev: gm + 1,
        mh_rank_cur: mh,
        mh_rank_prev: mh + 2,
        sh_rank_cur: sh,
        sh_rank_prev: sh,
        ak_rank_cur: ak,
        ak_rank_prev: ak,
        cw_rank_cur: cw,
        cw_rank_prev: cw + 3,
        up_rank_cur: up,
        up_rank_prev: up,
    }
}

#[test]
fn test_daily_rank_type_constants() {
    assert_eq!(DAILY_RANK_GRAND_MERCHANT, 0);
    assert_eq!(DAILY_RANK_KNIGHT_ADONIS, 1);
    assert_eq!(DAILY_RANK_HERO_OF_CHAOS, 2);
    assert_eq!(DAILY_RANK_MONSTER_HUNTER, 3);
    assert_eq!(DAILY_RANK_SHOZIN, 4);
    assert_eq!(DAILY_RANK_DRAKI, 5);
    assert_eq!(DAILY_RANK_DISCIPLE_KERON, 6);
    assert_eq!(DAILY_RANK_KING_OF_FELANKOR, 8);
}

#[test]
fn test_get_rank_fields() {
    let row = make_rank_row("Player", 5, 3, 10, 7, 1, 20);
    assert_eq!(get_rank_fields(&row, DAILY_RANK_GRAND_MERCHANT), (5, 6));
    assert_eq!(get_rank_fields(&row, DAILY_RANK_MONSTER_HUNTER), (3, 5));
    assert_eq!(get_rank_fields(&row, DAILY_RANK_HERO_OF_CHAOS), (1, 4));
    assert_eq!(get_rank_fields(&row, DAILY_RANK_SHOZIN), (10, 10));
    assert_eq!(get_rank_fields(&row, DAILY_RANK_KNIGHT_ADONIS), (7, 7));
    assert_eq!(get_rank_fields(&row, DAILY_RANK_DISCIPLE_KERON), (20, 20));
}

#[test]
fn test_rank_sorting_ascending() {
    let rows = vec![
        make_rank_row("Third", 3, 0, 0, 0, 0, 0),
        make_rank_row("First", 1, 0, 0, 0, 0, 0),
        make_rank_row("Unranked", 0, 0, 0, 0, 0, 0),
        make_rank_row("Second", 2, 0, 0, 0, 0, 0),
    ];
    let ranked = sort_ranked(&collect_ranked(&rows, DAILY_RANK_GRAND_MERCHANT));

    assert_eq!(ranked.len(), 3); // Unranked filtered out
    assert_eq!(ranked[0].name, "First");
    assert_eq!(ranked[1].name, "Second");
    assert_eq!(ranked[2].name, "Third");
}

#[test]
fn test_rank_diff_calculation() {
    let row = DailyRankRow {
        char_id: "Player".to_string(),
        gm_rank_cur: 3,
        gm_rank_prev: 8,
        mh_rank_cur: 5,
        mh_rank_prev: 2,
        sh_rank_cur: 1,
        sh_rank_prev: 1,
        ak_rank_cur: 0,
        ak_rank_prev: 0,
        cw_rank_cur: 0,
        cw_rank_prev: 0,
        up_rank_cur: 0,
        up_rank_prev: 0,
    };
    let (cur, prev) = get_rank_fields(&row, DAILY_RANK_GRAND_MERCHANT);
    assert_eq!(prev - cur, 5);
    let (cur, prev) = get_rank_fields(&row, DAILY_RANK_MONSTER_HUNTER);
    assert_eq!(prev - cur, -3);
    let (cur, prev) = get_rank_fields(&row, DAILY_RANK_SHOZIN);
    assert_eq!(prev - cur, 0);
    let rows = vec![row];
    let reply = user_daily_rank(&rows, DAILY_RANK_MONSTER_HUNTER, &"Player".to_string());
    assert_eq!((reply.my_rank, reply.diff), (1, -3));
}

#[test]
fn test_daily_rank_only_nonzero_saved() {
    let (gm, mh, sh, cw, up): (u64, u64, u64, u64, u64) = (0, 0, 0, 0, 0);
    assert!(!daily_stats_worth_saving(gm, mh, sh, cw, up), "all-zero stats should NOT trigger save");

    let (gm2, mh2, sh2, cw2, up2): (u64, u64, u64, u64, u64) = (0, 1, 0, 0, 0);
    assert!(daily_stats_worth_saving(gm2, mh2, sh2, cw2, up2), "any nonzero stat SHOULD trigger save");
}

#[test]
fn test_daily_rank_cw_only_rank1_increments() {
    let user_rank: u16 = 1;
    let counter = chaos_win_counter(0, user_rank);
    assert_eq!(counter, 1);

    // Rank 2 should NOT increment
    let user_rank2: u16 = 2;
    let counter2 = chaos_win_counter(0, user_rank2);
    assert_eq!(counter2, 0);
}

#[test]
fn boards_of_rank_types() {
    for t in [0u8, 1, 2, 3, 4, 6] {
        assert_eq!(rank_board(t), RankBoard::User);
    }
    assert_eq!(rank_board(8), RankBoard::Clan);
    assert_eq!(rank_board(5), RankBoard::Draki);
    assert_eq!(rank_board(7), RankBoard::Unknown);
    assert_eq!(rank_board(9), RankBoard::Unknown);
    assert!(!reply_has_diff(DAILY_RANK_DRAKI));
    assert!(reply_has_diff(DAILY_RANK_GRAND_MERCHANT));
}

#[test]
fn ties_keep_cache_order() {
    let input = vec![
        RankedName { name: "B".to_string(), cur: 2, prev: 0 },
        RankedName { name: "A1".to_string(), cur: 1, prev: 0 },
        RankedName { name: "C".to_string(), cur: 3, prev: 0 },
        RankedName { name: "A2".to_string(), cur: 1, prev: 0 },
        RankedName { name: "B2".to_string(), cur: 2, prev: 0 },
    ];
    let sorted = sort_ranked(&input);
    let names: Vec<&str> = sorted.iter().map(|e| e.name.as_str()).collect();
    assert_eq!(names, vec!["A1", "A2", "B", "B2", "C"]);
}

#[test]
fn user_reply_finds_player() {
    let rows = vec![
        make_rank_row("Third", 3, 0, 0, 0, 0, 0),
        make_rank_row("First", 1, 0, 0, 0, 0, 0),
        make_rank_row("Second", 2, 0, 0, 0, 0, 0),
    ];
    let r = user_daily_rank(&rows, DAILY_RANK_GRAND_MERCHANT, &"Third".to_string());
    assert_eq!(r.my_rank, 3);
    assert_eq!(r.diff, 1);
    assert_eq!(r.names, vec!["First".to_string(), "Second".to_string(), "Third".to_string()]);
    let none = user_daily_rank(&rows, DAILY_RANK_GRAND_MERCHANT, &"Nobody".to_string());
    assert_eq!((none.my_rank, none.diff), (0, 0));
    let empty_name = user_daily_rank(&rows, DAILY_RANK_GRAND_MERCHANT, &String::new());
    assert_eq!(empty_name.my_rank, 0);
    let empty = user_daily_rank(&Vec::new(), DAILY_RANK_SHOZIN, &"Third".to_string());
    assert_eq!((empty.my_rank, empty.diff, empty.names.len()), (0, 0, 0));
}

#[test]
fn user_reply_shows_at_most_a_hundred() {
    let rows: Vec<DailyRankRow> =
        (1..=150).rev().map(|i| make_rank_row(&format!("P{i}"), i, 0, 0, 0, 0, 0)).collect();
    let r = user_daily_rank(&rows, DAILY_RANK_GRAND_MERCHANT, &"P120".to_string());
    assert_eq!(r.names.len(), 100);
    assert_eq!(r.names[0], "P1");
    assert_eq!(r.names[99], "P100");
    assert_eq!(r.my_rank, 120);
}

#[test]
fn draki_reply() {
    let names = vec!["FastHigh".to_string(), "SlowHigh".to_string(), "LowStage".to_string()];
    let (rank, shown) = draki_rank_reply(&names, &"SlowHigh".to_string());
    assert_eq!(rank, 2);
    assert_eq!(shown, names);
    let (rank, _) = draki_rank_reply(&names, &"Other".to_string());
    assert_eq!(rank, 0);
}

#[test]
fn clan_reply() {
    let karus = vec![
        ClanRankEntry { clan_id: 10, name: "K1".to_string() },
        ClanRankEntry { clan_id: 11, name: "K2".to_string() },
    ];
    let elmo = vec![ClanRankEntry { clan_id: 20, name: "E1".to_string() }];
    let (rank, names) = clan_rank_reply(&karus, &elmo, 20);
    assert_eq!(rank, 2);
    assert_eq!(names, vec!["K1".to_string(), "K2".to_string(), "E1".to_string()]);
    assert_eq!(clan_rank_reply(&karus, &elmo, 10).0, 0);
    assert_eq!(clan_rank_reply(&karus, &elmo, 11).0, 1);
    assert_eq!(clan_rank_reply(&karus, &elmo, 0).0, 0);
    assert_eq!(clan_rank_reply(&karus, &elmo, 0xFFFF).0, 0);
    assert_eq!(clan_rank_reply(&karus, &elmo, 99).0, 0);
}

#[test]
fn test_daily_rank_row_model() {
    let row = DailyRankRow {
        char_id: "TestPlayer".to_string(),
        gm_rank_cur: 5,
        gm_rank_prev: 8,
        mh_rank_cur: 1,
        mh_rank_prev: 1,
        sh_rank_cur: 0,
        sh_rank_prev: 0,
        ak_rank_cur: 3,
        ak_rank_prev: 5,
        cw_rank_cur: 10,
        cw_rank_prev: 7,
        up_rank_cur: 0,
        up_rank_prev: 0,
    };
    assert_eq!(row.gm_rank_cur, 5);
    assert_eq!(row.mh_rank_cur, 1);
    assert_eq!(row.cw_rank_prev, 7);
}
