//! The daily rankings: which board a rank type shows, how the cached user
//! rankings are ordered, and what a player is told of the board and of his
//! own place on it.

use vstd::prelude::*;
use crate::packet::{Packet, le2, le4, twos, utf8};

verus! {

/// The daily ranking opcode.
pub const WIZ_DAILY_RANK: u8 = 0xC2;

/// Rank type: top gold earners.
pub const DAILY_RANK_GRAND_MERCHANT: u8 = 0;

/// Rank type: knight achievements.
pub const DAILY_RANK_KNIGHT_ADONIS: u8 = 1;

/// Rank type: chaos war heroes.
pub const DAILY_RANK_HERO_OF_CHAOS: u8 = 2;

/// Rank type: monster kills.
pub const DAILY_RANK_MONSTER_HUNTER: u8 = 3;

/// Rank type: Shozin exchanges.
pub const DAILY_RANK_SHOZIN: u8 = 4;

/// Rank type: the Draki Tower.
pub const DAILY_RANK_DRAKI: u8 = 5;

/// Rank type: upgrade masters.
pub const DAILY_RANK_DISCIPLE_KERON: u8 = 6;

/// Rank type: clans by points.
pub const DAILY_RANK_KING_OF_FELANKOR: u8 = 8;

/// The most names a board shows.
pub const MAX_RANK_NAMES: usize = 100;

/// The board that a rank type shows.
#[derive(Debug, Clone, Copy, PartialEq, Eq, Structural)]
pub enum RankBoard {
    /// A user ranking kept in the daily rank cache.
    User,
    /// The clan ranking of both nations.
    Clan,
    /// The Draki Tower ranking of the player's class.
    Draki,
    /// An unknown rank type: no answer.
    Unknown,
}

/// The board of a rank type.
pub open spec fn board_of(rank_type: u8) -> RankBoard {
    if rank_type == DAILY_RANK_GRAND_MERCHANT || rank_type == DAILY_RANK_KNIGHT_ADONIS
        || rank_type == DAILY_RANK_HERO_OF_CHAOS || rank_type == DAILY_RANK_MONSTER_HUNTER
        || rank_type == DAILY_RANK_SHOZIN || rank_type == DAILY_RANK_DISCIPLE_KERON {
        RankBoard::User
    } else if rank_type == DAILY_RANK_KING_OF_FELANKOR {
        RankBoard::Clan
    } else if rank_type == DAILY_RANK_DRAKI {
        RankBoard::Draki
    } else {
        RankBoard::Unknown
    }
}

/// The board of a rank type.
pub fn rank_board(rank_type: u8) -> (r: RankBoard)
    ensures
        r == board_of(rank_type),
{
    if rank_type == DAILY_RANK_GRAND_MERCHANT || rank_type == DAILY_RANK_KNIGHT_ADONIS
        || rank_type == DAILY_RANK_HERO_OF_CHAOS || rank_type == DAILY_RANK_MONSTER_HUNTER
        || rank_type == DAILY_RANK_SHOZIN || rank_type == DAILY_RANK_DISCIPLE_KERON {
        RankBoard::User
    } else if rank_type == DAILY_RANK_KING_OF_FELANKOR {
        RankBoard::Clan
    } else if rank_type == DAILY_RANK_DRAKI {
        RankBoard::Draki
    } else {
        RankBoard::Unknown
    }
}

/// Whether the reply of a board carries the rank difference; the Draki
/// board's does not.
pub fn reply_has_diff(rank_type: u8) -> (r: bool)
    ensures
        r == (rank_type != DAILY_RANK_DRAKI),
{
    rank_type != DAILY_RANK_DRAKI
}

/// A player's current and previous place on each user ranking; zero means
/// unranked.
#[derive(Debug, Clone, PartialEq, Eq)]
pub struct DailyRankRow {
    pub char_id: String,
    pub gm_rank_cur: i32,
    pub gm_rank_prev: i32,
    pub mh_rank_cur: i32,
    pub mh_rank_prev: i32,
    pub sh_rank_cur: i32,
    pub sh_rank_prev: i32,
    pub ak_rank_cur: i32,
    pub ak_rank_prev: i32,
    pub cw_rank_cur: i32,
    pub cw_rank_prev: i32,
    pub up_rank_cur: i32,
    pub up_rank_prev: i32,
}

/// The (current, previous) places of a row on the ranking of a rank type;
/// (0, 0) for a type without user places.
pub open spec fn rank_fields(row: DailyRankRow, rank_type: u8) -> (i32, i32) {
    if rank_type == DAILY_RANK_GRAND_MERCHANT {
        (row.gm_rank_cur, row.gm_rank_prev)
    } else if rank_type == DAILY_RANK_KNIGHT_ADONIS {
        (row.ak_rank_cur, row.ak_rank_prev)
    } else if rank_type == DAILY_RANK_HERO_OF_CHAOS {
        (row.cw_rank_cur, row.cw_rank_prev)
    } else if rank_type == DAILY_RANK_MONSTER_HUNTER {
        (row.mh_rank_cur, row.mh_rank_prev)
    } else if rank_type == DAILY_RANK_SHOZIN {
        (row.sh_rank_cur, row.sh_rank_prev)
    } else if rank_type == DAILY_RANK_DISCIPLE_KERON {
        (row.up_rank_cur, row.up_rank_prev)
    } else {
        (0, 0)
    }
}

/// Each ranking of the user board reads the row's own pair of columns for
/// it, whatever the other columns hold: grand merchant `gm`, knight Adonis
/// `ak`, hero of chaos `cw`, monster hunter `mh`, Shozin `sh` and disciple
/// of Keron `up`; a rank type of another board reads no column.
pub proof fn lemma_rank_fields_own_columns(row: DailyRankRow, a: i32, b: i32, t: u8)
    ensures
        rank_fields(DailyRankRow { gm_rank_cur: a, gm_rank_prev: b, ..row }, DAILY_RANK_GRAND_MERCHANT) == (a, b),
        rank_fields(DailyRankRow { ak_rank_cur: a, ak_rank_prev: b, ..row }, DAILY_RANK_KNIGHT_ADONIS) == (a, b),
        rank_fields(DailyRankRow { cw_rank_cur: a, cw_rank_prev: b, ..row }, DAILY_RANK_HERO_OF_CHAOS) == (a, b),
        rank_fields(DailyRankRow { mh_rank_cur: a, mh_rank_prev: b, ..row }, DAILY_RANK_MONSTER_HUNTER) == (a, b),
        rank_fields(DailyRankRow { sh_rank_cur: a, sh_rank_prev: b, ..row }, DAILY_RANK_SHOZIN) == (a, b),
        rank_fields(DailyRankRow { up_rank_cur: a, up_rank_prev: b, ..row }, DAILY_RANK_DISCIPLE_KERON) == (a, b),
        board_of(t) != RankBoard::User ==> rank_fields(row, t) == (0i32, 0i32),
{
}

/// The (current, previous) places of a row on the ranking of a rank type.
pub fn get_rank_fields(row: &DailyRankRow, rank_type: u8) -> (r: (i32, i32))
    ensures
        r == rank_fields(*row, rank_type),
{
    if rank_type == DAILY_RANK_GRAND_MERCHANT {
        (row.gm_rank_cur, row.gm_rank_prev)
    } else if rank_type == DAILY_RANK_KNIGHT_ADONIS {
        (row.ak_rank_cur, row.ak_rank_prev)
    } else if rank_type == DAILY_RANK_HERO_OF_CHAOS {
        (row.cw_rank_cur, row.cw_rank_prev)
    } else if rank_type == DAILY_RANK_MONSTER_HUNTER {
        (row.mh_rank_cur, row.mh_rank_prev)
    } else if rank_type == DAILY_RANK_SHOZIN {
        (row.sh_rank_cur, row.sh_rank_prev)
    } else if rank_type == DAILY_RANK_DISCIPLE_KERON {
        (row.up_rank_cur, row.up_rank_prev)
    } else {
        (0, 0)
    }
}

/// A ranked player on one user ranking.
#[derive(Debug, Clone, PartialEq, Eq)]
pub struct RankedName {
    pub name: String,
    pub cur: i32,
    pub prev: i32,
}

/// The players of `rows` that hold a place (current place above zero) on
/// the ranking of `rank_type`, in the order of `rows`.
pub open spec fn ranked_rows(rows: Seq<DailyRankRow>, rank_type: u8) -> Seq<RankedName>
    decreases rows.len(),
{
    if rows.len() == 0 {
        Seq::empty()
    } else {
        let before = ranked_rows(rows.drop_last(), rank_type);
        let row = rows.last();
        let (cur, prev) = rank_fields(row, rank_type);
        if cur > 0 {
            before.push(RankedName { name: row.char_id, cur, prev })
        } else {
            before
        }
    }
}

/// The ranked players of the cache on one ranking, in cache order.
pub fn collect_ranked(rows: &Vec<DailyRankRow>, rank_type: u8) -> (r: Vec<RankedName>)
    ensures
        r@ == ranked_rows(rows@, rank_type),
{
    let mut out: Vec<RankedName> = Vec::new();
    let mut i: usize = 0;
    while i < rows.len()
        invariant
            i <= rows@.len(),
            out@ == ranked_rows(rows@.take(i as int), rank_type),
        decreases rows@.len() - i,
    {
        let row = &rows[i];
        let (cur, prev) = get_rank_fields(row, rank_type);
        proof {
            assert(rows@.take(i + 1).drop_last() =~= rows@.take(i as int));
            assert(rows@.take(i + 1).last() == rows@[i as int]);
        }
        if cur > 0 {
            out.push(RankedName { name: row.char_id.clone(), cur, prev });
        }
        i = i + 1;
    }
    proof {
        assert(rows@.take(rows@.len() as int) =~= rows@);
    }
    out
}

/// `out` holds the elements of `input` ordered by current place, lowest
/// first, where players with the same place keep their order: `perm` tells
/// for each position of `out` the position in `input` it came from.
pub open spec fn stable_order(out: Seq<RankedName>, input: Seq<RankedName>, perm: Seq<int>) -> bool {
    &&& out.len() == input.len()
    &&& perm.len() == out.len()
    &&& forall|p: int| 0 <= p < perm.len() ==> 0 <= #[trigger] perm[p] < input.len()
    &&& forall|p: int| 0 <= p < perm.len() ==> out[p] == input[#[trigger] perm[p]]
    &&& forall|p: int, q: int| 0 <= p < q < perm.len() ==> #[trigger] perm[p] != #[trigger] perm[q]
    &&& forall|p: int, q: int| 0 <= p < q < out.len() ==> (#[trigger] out[p]).cur <= (#[trigger] out[q]).cur
    &&& forall|p: int, q: int|
        0 <= p < q < out.len() && (#[trigger] out[p]).cur == (#[trigger] out[q]).cur ==> perm[p] < perm[q]
}

/// `out` is `input` sorted by current place, ties kept in order.
pub open spec fn stably_sorted(out: Seq<RankedName>, input: Seq<RankedName>) -> bool {
    exists|perm: Seq<int>| stable_order(out, input, perm)
}

/// Sorts the ranked players by current place (lowest first); players with
/// the same place keep their order.
pub fn sort_ranked(input: &Vec<RankedName>) -> (r: Vec<RankedName>)
    ensures
        stably_sorted(r@, input@),
{
    let mut sorted: Vec<RankedName> = Vec::new();
    let ghost mut perm: Seq<int> = Seq::empty();
    let mut i: usize = 0;
    while i < input.len()
        invariant
            i <= input@.len(),
            sorted@.len() == i,
            perm.len() == i,
            forall|p: int| 0 <= p < perm.len() ==> 0 <= #[trigger] perm[p] < i,
            forall|p: int| 0 <= p < perm.len() ==> sorted@[p] == input@[#[trigger] perm[p]],
            forall|p: int, q: int| 0 <= p < q < perm.len() ==> #[trigger] perm[p] != #[trigger] perm[q],
            forall|p: int, q: int|
                0 <= p < q < sorted@.len() ==> (#[trigger] sorted@[p]).cur <= (#[trigger] sorted@[q]).cur,
            forall|p: int, q: int|
                0 <= p < q < sorted@.len() && (#[trigger] sorted@[p]).cur == (#[trigger] sorted@[q]).cur
                    ==> perm[p] < perm[q],
        decreases input@.len() - i,
    {
        let src = &input[i];
        let e = RankedName { name: src.name.clone(), cur: src.cur, prev: src.prev };
        let key = e.cur;
        let mut pos: usize = 0;
        while pos < sorted.len() && sorted[pos].cur <= key
            invariant
                pos <= sorted@.len(),
                forall|k: int| 0 <= k < pos ==> (#[trigger] sorted@[k]).cur <= key,
            decreases sorted@.len() - pos,
        {
            pos = pos + 1;
        }
        proof {
            assert forall|k: int| pos <= k < sorted@.len() implies key < (#[trigger] sorted@[k]).cur by {
                assert(!(sorted@[pos as int].cur <= key));
                if k > pos {
                    assert(sorted@[pos as int].cur <= sorted@[k].cur);
                }
            }
        }
        let ghost old_sorted = sorted@;
        let ghost old_perm = perm;
        sorted.insert(pos, e);
        proof {
            perm = old_perm.insert(pos as int, i as int);
            assert forall|p: int| 0 <= p < perm.len() implies sorted@[p] == input@[#[trigger] perm[p]] by {
                if p < pos {
                    assert(sorted@[p] == old_sorted[p] && perm[p] == old_perm[p]);
                } else if p > pos {
                    assert(sorted@[p] == old_sorted[p - 1] && perm[p] == old_perm[p - 1]);
                }
            }
            assert forall|p: int| 0 <= p < perm.len() implies 0 <= #[trigger] perm[p] < i + 1 by {
                if p < pos {
                    assert(perm[p] == old_perm[p]);
                } else if p > pos {
                    assert(perm[p] == old_perm[p - 1]);
                }
            }
            assert forall|p: int, q: int| 0 <= p < q < perm.len() implies #[trigger] perm[p] != #[trigger] perm[q] by {
                if p < pos && q < pos {
                    assert(perm[p] == old_perm[p] && perm[q] == old_perm[q]);
                } else if p < pos && q == pos {
                    assert(perm[p] == old_perm[p]);
                } else if p < pos {
                    assert(perm[p] == old_perm[p] && perm[q] == old_perm[q - 1]);
                } else if p == pos {
                    assert(perm[q] == old_perm[q - 1]);
                } else {
                    assert(perm[p] == old_perm[p - 1] && perm[q] == old_perm[q - 1]);
                }
            }
            assert forall|p: int, q: int| 0 <= p < q < sorted@.len() implies (#[trigger] sorted@[p]).cur
                <= (#[trigger] sorted@[q]).cur by {
                if p < pos && q < pos {
                    assert(sorted@[p] == old_sorted[p] && sorted@[q] == old_sorted[q]);
                } else if p < pos && q == pos {
                    assert(sorted@[p] == old_sorted[p]);
                } else if p < pos {
                    assert(sorted@[p] == old_sorted[p] && sorted@[q] == old_sorted[q - 1]);
                } else if p == pos {
                    assert(sorted@[q] == old_sorted[q - 1]);
                } else {
                    assert(sorted@[p] == old_sorted[p - 1] && sorted@[q] == old_sorted[q - 1]);
                }
            }
            assert forall|p: int, q: int|
                0 <= p < q < sorted@.len() && (#[trigger] sorted@[p]).cur == (#[trigger] sorted@[q]).cur
                    implies perm[p] < perm[q] by {
                if p < pos && q < pos {
                    assert(sorted@[p] == old_sorted[p] && sorted@[q] == old_sorted[q]);
                    assert(perm[p] == old_perm[p] && perm[q] == old_perm[q]);
                } else if p < pos && q == pos {
                    assert(perm[p] == old_perm[p]);
                } else if p < pos {
                    assert(sorted@[p] == old_sorted[p] && sorted@[q] == old_sorted[q - 1]);
                    assert(sorted@[p].cur <= key);
                } else if p == pos {
                    assert(sorted@[q] == old_sorted[q - 1]);
                } else {
                    assert(sorted@[p] == old_sorted[p - 1] && sorted@[q] == old_sorted[q - 1]);
                    assert(perm[p] == old_perm[p - 1] && perm[q] == old_perm[q - 1]);
                }
            }
        }
        i = i + 1;
    }
    proof {
        assert(stable_order(sorted@, input@, perm));
    }
    sorted
}

/// The number of names a board shows out of `n` ranked entries.
pub open spec fn shown(n: int) -> int {
    if n < MAX_RANK_NAMES {
        n
    } else {
        MAX_RANK_NAMES as int
    }
}

/// Position `p` is the first entry of `s` that carries `name`.
pub open spec fn first_named_at(s: Seq<RankedName>, name: Seq<char>, p: int) -> bool {
    &&& 0 <= p < s.len()
    &&& s[p].name@ == name
    &&& forall|q: int| 0 <= q < p ==> (#[trigger] s[q]).name@ != name
}

/// Every entry's previous place minus its current place fits in 32 bits.
pub open spec fn diffs_fit(s: Seq<RankedName>) -> bool {
    forall|k: int| 0 <= k < s.len() ==> i32::MIN <= (#[trigger] s[k]).prev - s[k].cur <= i32::MAX
}

/// A player's answer from a user ranking.
#[derive(Debug, Clone, PartialEq, Eq)]
pub struct UserRankReply {
    /// The player's place counted from one, or zero when unranked.
    pub my_rank: u32,
    /// Previous place minus current place (positive when the player rose).
    pub diff: i32,
    /// The names of the best hundred, best first.
    pub names: Vec<String>,
}

/// The answer for `char_name` from the sorted ranking `sorted`: the first
/// entry of that name (when the name is not empty) gives the player's place
/// and change; the names are those of the first hundred entries.
pub open spec fn user_reply(sorted: Seq<RankedName>, char_name: Seq<char>, r: UserRankReply) -> bool {
    &&& if char_name.len() > 0 && exists|p: int| first_named_at(sorted, char_name, p) {
        exists|p: int|
            #[trigger] first_named_at(sorted, char_name, p) && r.my_rank == (p + 1) as u32 && r.diff
                == sorted[p].prev - sorted[p].cur
    } else {
        r.my_rank == 0 && r.diff == 0
    }
    &&& r.names@.len() == shown(sorted.len() as int)
    &&& forall|k: int| 0 <= k < r.names@.len() ==> (#[trigger] r.names@[k])@ == sorted[k].name@
}

/// The first names of a sorted ranking, at most a hundred.
fn leading_names(sorted: &Vec<RankedName>) -> (r: Vec<String>)
    ensures
        r@.len() == shown(sorted@.len() as int),
        forall|k: int| 0 <= k < r@.len() ==> (#[trigger] r@[k])@ == sorted@[k].name@,
{
    let mut names: Vec<String> = Vec::new();
    let mut k: usize = 0;
    while k < sorted.len() && k < MAX_RANK_NAMES
        invariant
            k <= sorted@.len(),
            k <= MAX_RANK_NAMES,
            names@.len() == k,
            forall|j: int| 0 <= j < k ==> (#[trigger] names@[j])@ == sorted@[j].name@,
        decreases sorted@.len() - k,
    {
        names.push(sorted[k].name.clone());
        k = k + 1;
    }
    names
}

/// A player's answer from a sorted user ranking.
pub fn user_rank_reply(sorted: &Vec<RankedName>, char_name: &String) -> (r: UserRankReply)
    requires
        diffs_fit(sorted@),
    ensures
        user_reply(sorted@, char_name@, r),
{
    let names = leading_names(sorted);
    let name_len = char_name.as_str().is_empty();
    if name_len {
        return UserRankReply { my_rank: 0, diff: 0, names };
    }
    let mut i: usize = 0;
    while i < sorted.len()
        invariant
            i <= sorted@.len(),
            diffs_fit(sorted@),
            char_name@.len() > 0,
            names@.len() == shown(sorted@.len() as int),
            forall|k: int| 0 <= k < names@.len() ==> (#[trigger] names@[k])@ == sorted@[k].name@,
            forall|q: int| 0 <= q < i ==> (#[trigger] sorted@[q]).name@ != char_name@,
        decreases sorted@.len() - i,
    {
        if sorted[i].name == *char_name {
            let e = &sorted[i];
            proof {
                assert(first_named_at(sorted@, char_name@, i as int));
                assert(i32::MIN <= sorted@[i as int].prev - sorted@[i as int].cur <= i32::MAX);
            }
            let diff = e.prev - e.cur;
            let r = UserRankReply { my_rank: (i + 1) as u32, diff, names };
            proof {
                assert forall|p: int| #[trigger] first_named_at(sorted@, char_name@, p) implies p == i by {
                    if p < i {
                        assert(sorted@[p].name@ != char_name@);
                    } else if p > i {
                        assert(sorted@[i as int].name@ != char_name@);
                    }
                }
            }
            return r;
        }
        i = i + 1;
    }
    UserRankReply { my_rank: 0, diff: 0, names }
}

/// Every row's previous place minus its current place on the ranking of
/// `rank_type` fits in 32 bits.
pub open spec fn row_diffs_fit(rows: Seq<DailyRankRow>, rank_type: u8) -> bool {
    forall|k: int|
        0 <= k < rows.len() ==> i32::MIN <= (#[trigger] rank_fields(rows[k], rank_type)).1 - rank_fields(
            rows[k],
            rank_type,
        ).0 <= i32::MAX
}

proof fn lemma_ranked_rows_fit(rows: Seq<DailyRankRow>, rank_type: u8)
    requires
        row_diffs_fit(rows, rank_type),
    ensures
        diffs_fit(ranked_rows(rows, rank_type)),
    decreases rows.len(),
{
    if rows.len() > 0 {
        let before = rows.drop_last();
        assert(row_diffs_fit(before, rank_type)) by {
            assert forall|k: int| 0 <= k < before.len() implies i32::MIN <= (#[trigger] rank_fields(
                before[k],
                rank_type,
            )).1 - rank_fields(before[k], rank_type).0 <= i32::MAX by {
                assert(before[k] == rows[k]);
                assert(i32::MIN <= rank_fields(rows[k], rank_type).1 - rank_fields(rows[k], rank_type).0 <= i32::MAX);
            }
        }
        lemma_ranked_rows_fit(before, rank_type);
        assert(i32::MIN <= rank_fields(rows[rows.len() - 1], rank_type).1 - rank_fields(rows[rows.len() - 1], rank_type).0 <= i32::MAX);
    }
}

proof fn lemma_sorted_fit(out: Seq<RankedName>, input: Seq<RankedName>)
    requires
        stably_sorted(out, input),
        diffs_fit(input),
    ensures
        diffs_fit(out),
{
    let perm = choose|perm: Seq<int>| stable_order(out, input, perm);
    assert forall|k: int| 0 <= k < out.len() implies i32::MIN <= (#[trigger] out[k]).prev - out[k].cur
        <= i32::MAX by {
        assert(out[k] == input[perm[k]]);
        assert(0 <= perm[k] < input.len());
        assert(i32::MIN <= input[perm[k]].prev - input[perm[k]].cur <= i32::MAX);
    }
}

/// The answer to `char_name` from the cached rows on the user ranking of
/// `rank_type`: the rows with a place, stably sorted by place, and the
/// player's line and the leading names taken from them.
pub open spec fn user_rank_answer(
    rows: Seq<DailyRankRow>,
    rank_type: u8,
    char_name: Seq<char>,
    r: UserRankReply,
) -> bool {
    exists|sorted: Seq<RankedName>|
        stably_sorted(sorted, ranked_rows(rows, rank_type)) && #[trigger] user_reply(sorted, char_name, r)
}

/// Answers a player's request for the user ranking of `rank_type` from the
/// daily rank cache. An empty cache gives the empty answer.
pub fn user_daily_rank(rows: &Vec<DailyRankRow>, rank_type: u8, char_name: &String) -> (r: UserRankReply)
    requires
        row_diffs_fit(rows@, rank_type),
    ensures
        user_rank_answer(rows@, rank_type, char_name@, r),
{
    let ranked = collect_ranked(rows, rank_type);
    let sorted = sort_ranked(&ranked);
    proof {
        lemma_ranked_rows_fit(rows@, rank_type);
        lemma_sorted_fit(sorted@, ranked@);
    }
    let r = user_rank_reply(&sorted, char_name);
    proof {
        assert(stably_sorted(sorted@, ranked_rows(rows@, rank_type)) && user_reply(sorted@, char_name@, r));
    }
    r
}

/// The Draki Tower answer: the player's place counted from one (zero when
/// absent) in the list, already ordered by the database, and the first
/// hundred names.
pub open spec fn draki_reply(names: Seq<String>, char_name: Seq<char>, r: (u32, Vec<String>)) -> bool {
    &&& if exists|p: int| 0 <= p < names.len() && (#[trigger] names[p])@ == char_name {
        exists|p: int|
            0 <= p < names.len() && (#[trigger] names[p])@ == char_name && (forall|q: int|
                0 <= q < p ==> (#[trigger] names[q])@ != char_name) && r.0 == (p + 1) as u32
    } else {
        r.0 == 0
    }
    &&& r.1@.len() == shown(names.len() as int)
    &&& forall|k: int| 0 <= k < r.1@.len() ==> (#[trigger] r.1@[k])@ == names[k]@
}

/// The Draki Tower answer for the player `char_name` from the list of the
/// player's class.
pub fn draki_rank_reply(names: &Vec<String>, char_name: &String) -> (r: (u32, Vec<String>))
    ensures
        draki_reply(names@, char_name@, r),
{
    let mut shown_names: Vec<String> = Vec::new();
    let mut k: usize = 0;
    while k < names.len() && k < MAX_RANK_NAMES
        invariant
            k <= names@.len(),
            k <= MAX_RANK_NAMES,
            shown_names@.len() == k,
            forall|j: int| 0 <= j < k ==> (#[trigger] shown_names@[j])@ == names@[j]@,
        decreases names@.len() - k,
    {
        shown_names.push(names[k].clone());
        k = k + 1;
    }
    let mut i: usize = 0;
    while i < names.len()
        invariant
            i <= names@.len(),
            shown_names@.len() == shown(names@.len() as int),
            forall|j: int| 0 <= j < shown_names@.len() ==> (#[trigger] shown_names@[j])@ == names@[j]@,
            forall|q: int| 0 <= q < i ==> (#[trigger] names@[q])@ != char_name@,
        decreases names@.len() - i,
    {
        if names[i] == *char_name {
            proof {
                let p = i as int;
                assert(0 <= p < names@.len() && names@[p]@ == char_name@ && (forall|q: int|
                    0 <= q < p ==> (#[trigger] names@[q])@ != char_name@));
            }
            return ((i + 1) as u32, shown_names);
        }
        i = i + 1;
    }
    (0, shown_names)
}

/// A clan on the clan ranking.
#[derive(Debug, Clone, PartialEq, Eq)]
pub struct ClanRankEntry {
    pub clan_id: u16,
    pub name: String,
}

/// The clan answer: the leading clans of Karus followed by those of El
/// Morad; the player's clan place is its first position counted from zero
/// (zero also when the player has no clan, clan id 0 or 0xFFFF, or the clan
/// is absent); the names are those of the first hundred clans.
pub open spec fn clan_reply(all: Seq<ClanRankEntry>, knights_id: u16, r: (u32, Vec<String>)) -> bool {
    &&& if knights_id != 0 && knights_id != 0xFFFF && exists|p: int|
        0 <= p < all.len() && (#[trigger] all[p]).clan_id == knights_id {
        exists|p: int|
            0 <= p < all.len() && (#[trigger] all[p]).clan_id == knights_id && (forall|q: int|
                0 <= q < p ==> (#[trigger] all[q]).clan_id != knights_id) && r.0 == p as u32
    } else {
        r.0 == 0
    }
    &&& r.1@.len() == shown(all.len() as int)
    &&& forall|k: int| 0 <= k < r.1@.len() ==> (#[trigger] r.1@[k])@ == all[k].name@
}

/// The clan ranking answer for a player of clan `knights_id`, from the
/// leading clans of each nation.
pub fn clan_rank_reply(karus: &Vec<ClanRankEntry>, elmorad: &Vec<ClanRankEntry>, knights_id: u16) -> (r: (u32, Vec<String>))
    requires
        karus@.len() + elmorad@.len() <= usize::MAX,
    ensures
        clan_reply(karus@ + elmorad@, knights_id, r),
{
    let ghost all = karus@ + elmorad@;
    let mut names: Vec<String> = Vec::new();
    let mut my_rank: u32 = 0;
    let mut found: bool = false;
    let mut k: usize = 0;
    let total = karus.len() + elmorad.len();
    while k < total
        invariant
            total == all.len(),
            all == karus@ + elmorad@,
            k <= total,
            names@.len() == shown(k as int),
            forall|j: int| 0 <= j < names@.len() ==> (#[trigger] names@[j])@ == all[j].name@,
            found ==> knights_id != 0 && knights_id != 0xFFFF && exists|p: int|
                0 <= p < k && (#[trigger] all[p]).clan_id == knights_id && (forall|q: int|
                    0 <= q < p ==> (#[trigger] all[q]).clan_id != knights_id) && my_rank == p as u32,
            !found ==> my_rank == 0 && (knights_id != 0 && knights_id != 0xFFFF ==> forall|q: int|
                0 <= q < k ==> (#[trigger] all[q]).clan_id != knights_id),
        decreases total - k,
    {
        let e = if k < karus.len() {
            &karus[k]
        } else {
            &elmorad[k - karus.len()]
        };
        assert(*e == all[k as int]);
        if k < MAX_RANK_NAMES {
            names.push(e.name.clone());
        }
        if !found && knights_id != 0 && knights_id != 0xFFFF && e.clan_id == knights_id {
            found = true;
            my_rank = k as u32;
        }
        k = k + 1;
    }
    proof {
        if found {
            let p = choose|p: int|
                0 <= p < k && (#[trigger] all[p]).clan_id == knights_id && (forall|q: int|
                    0 <= q < p ==> (#[trigger] all[q]).clan_id != knights_id) && my_rank == p as u32;
            assert forall|p2: int|
                0 <= p2 < all.len() && (#[trigger] all[p2]).clan_id == knights_id && (forall|q: int|
                    0 <= q < p2 ==> (#[trigger] all[q]).clan_id != knights_id) implies p2 == p by {
                if p2 < p {
                    assert(all[p2].clan_id != knights_id);
                } else if p2 > p {
                    assert(all[p].clan_id != knights_id);
                }
            }
        }
    }
    (my_rank, names)
}

/// Daily statistics are written back only when one of them is above zero.
pub fn daily_stats_worth_saving(gm: u64, mh: u64, sh: u64, cw: u64, up: u64) -> (r: bool)
    ensures
        r == (gm > 0 || mh > 0 || sh > 0 || cw > 0 || up > 0),
{
    gm > 0 || mh > 0 || sh > 0 || cw > 0 || up > 0
}

/// The chaos war win counter after a war in which the player finished at
/// `user_rank`: only the winner (rank one) counts a win.
pub fn chaos_win_counter(counter: u64, user_rank: u16) -> (r: u64)
    requires
        counter < u64::MAX,
    ensures
        r == if user_rank == 1 {
            counter + 1
        } else {
            counter as int
        },
{
    if user_rank == 1 {
        counter + 1
    } else {
        counter
    }
}

/// Names on the wire as short strings, in order.
pub open spec fn names_bytes(names: Seq<String>) -> Seq<u8>
    decreases names.len(),
{
    if names.len() == 0 {
        Seq::empty()
    } else {
        names_bytes(names.drop_last()) + seq![utf8(names.last()@).len() as u8] + utf8(names.last()@)
    }
}

/// A ranking reply: sub-opcode one, the rank type, the player's place, the
/// rank difference (absent on the Draki board), the number of names and the
/// names as short strings.
pub fn build_rank_reply(rank_type: u8, my_rank: u32, diff: Option<i32>, names: &Vec<String>) -> (r: Packet)
    requires
        names@.len() <= u16::MAX,
        forall|i: int| 0 <= i < names@.len() ==> utf8((#[trigger] names@[i])@).len() <= u8::MAX,
    ensures
        r.opcode == WIZ_DAILY_RANK,
        r.data@ == seq![1u8, rank_type] + le4(my_rank as int) + match diff {
            Some(d) => le4(twos(d as int, 32)),
            None => Seq::empty(),
        } + le2(names@.len() as int) + names_bytes(names@),
{
    let mut pkt = Packet::new(WIZ_DAILY_RANK);
    pkt.write_u8(1);
    pkt.write_u8(rank_type);
    pkt.write_u32(my_rank);
    match diff {
        Some(d) => {
            pkt.write_i32(d);
        },
        None => {},
    }
    pkt.write_u16(names.len() as u16);
    let ghost head = pkt.data@;
    assert(head =~= seq![1u8, rank_type] + le4(my_rank as int) + match diff {
        Some(d) => le4(twos(d as int, 32)),
        None => Seq::empty(),
    } + le2(names@.len() as int));
    let mut i: usize = 0;
    while i < names.len()
        invariant
            i <= names@.len(),
            forall|j: int| 0 <= j < names@.len() ==> utf8((#[trigger] names@[j])@).len() <= u8::MAX,
            pkt.opcode == WIZ_DAILY_RANK,
            pkt.data@ == head + names_bytes(names@.take(i as int)),
        decreases names@.len() - i,
    {
        let ghost before = pkt.data@;
        assert(utf8(names@[i as int]@).len() <= u8::MAX);
        pkt.write_sbyte_string(names[i].as_str());
        proof {
            assert(names@.take(i + 1).drop_last() =~= names@.take(i as int));
            assert(names@.take(i + 1).last() == names@[i as int]);
            assert(pkt.data@ =~= before + seq![utf8(names@[i as int]@).len() as u8] + utf8(names@[i as int]@));
        }
        i = i + 1;
    }
    proof {
        assert(names@.take(names@.len() as int) =~= names@);
    }
    pkt
}

/// The answer when a board has nothing to show: place zero, a zero
/// difference except on the Draki board, and no names.
pub fn build_empty_rank_reply(rank_type: u8) -> (r: Packet)
    ensures
        r.opcode == WIZ_DAILY_RANK,
        r.data@ == seq![1u8, rank_type] + le4(0) + (if rank_type != DAILY_RANK_DRAKI {
            le4(0)
        } else {
            Seq::empty()
        }) + le2(0),
{
    let mut pkt = Packet::new(WIZ_DAILY_RANK);
    pkt.write_u8(1);
    pkt.write_u8(rank_type);
    pkt.write_u32(0);
    if rank_type != DAILY_RANK_DRAKI {
        pkt.write_u32(0);
    }
    pkt.write_u16(0);
    assert(pkt.data@ =~= seq![1u8, rank_type] + le4(0) + (if rank_type != DAILY_RANK_DRAKI {
        le4(0)
    } else {
        Seq::empty()
    }) + le2(0));
    pkt
}


/// The board a daily rank request asks to show: the second byte, when the
/// first (the sub-opcode) is 1; nothing when either byte is missing or the
/// sub-opcode is another.
pub open spec fn daily_rank_request_of(d: Seq<u8>) -> Option<u8> {
    if d.len() >= 2 && d[0] == 1 {
        Some(d[1])
    } else {
        None
    }
}

/// Reads a daily rank request.
pub fn parse_daily_rank_request(data: &[u8]) -> (r: Option<u8>)
    ensures
        r == daily_rank_request_of(data@),
{
    if data.len() >= 2 && data[0] == 1 {
        Some(data[1])
    } else {
        None
    }
}

} // verus!
