//! Loot item generation: a monster's drop rolls a grade, a kind (weapon,
//! defensive or accessory), a class and a rarity from weighted tables,
//! and composes the item ID from them.
//!
//! Every weighted roll picks the first entry whose cumulative range
//! `[sum of the weights before it, that sum + its weight)` holds the
//! random number; a roll outside every range picks nothing (0).

use std::vec::Vec;
use vstd::prelude::*;

use crate::dice::random_between;

verus! {

/// Number of weapon classes.
pub const MAX_UPGRADE_WEAPON: usize = 12;

/// Grade weights of a grade code.
#[derive(Debug, Clone, Copy, PartialEq, Eq, Structural)]
pub struct MakeItemGradeCodeRow {
    pub item_index: i16,
    pub grade_1: i16,
    pub grade_2: i16,
    pub grade_3: i16,
    pub grade_4: i16,
    pub grade_5: i16,
    pub grade_6: i16,
    pub grade_7: i16,
    pub grade_8: i16,
    pub grade_9: i16,
}

/// Weapon class weights of a level band.
#[derive(Debug, Clone, Copy, PartialEq, Eq, Structural)]
pub struct MakeWeaponRow {
    pub by_level: i16,
    pub class_1: i16,
    pub class_2: i16,
    pub class_3: i16,
    pub class_4: i16,
    pub class_5: i16,
    pub class_6: i16,
    pub class_7: i16,
    pub class_8: i16,
    pub class_9: i16,
    pub class_10: i16,
    pub class_11: i16,
    pub class_12: i16,
}

/// Defensive class weights of a level band.
#[derive(Debug, Clone, Copy, PartialEq, Eq, Structural)]
pub struct MakeDefensiveRow {
    pub by_level: i16,
    pub class_1: i16,
    pub class_2: i16,
    pub class_3: i16,
    pub class_4: i16,
    pub class_5: i16,
    pub class_6: i16,
    pub class_7: i16,
}

/// Rarity weights (rare, magic, general) of an item level.
#[derive(Debug, Clone, Copy, PartialEq, Eq, Structural)]
pub struct MakeItemLareCodeRow {
    pub level_grade: i16,
    pub lare_item: i16,
    pub magic_item: i16,
    pub general_item: i16,
}

/// The production tables.
#[derive(Debug, Clone)]
pub struct MakeItemTables {
    pub grade_codes: Vec<MakeItemGradeCodeRow>,
    pub weapons: Vec<MakeWeaponRow>,
    pub defensives: Vec<MakeDefensiveRow>,
    pub lare_codes: Vec<MakeItemLareCodeRow>,
}

/// Whether `min <= x < max`.
pub fn compare(x: i32, min: i32, max: i32) -> (r: bool)
    ensures
        r == (min <= x < max),
{
    x >= min && x < max
}

/// The entry picked by `random` among the weights from `i` on, whose
/// cumulative range starts at `percent`: the first with a weight other
/// than 0 whose range holds `random` (numbered from 1), or 0.
pub open spec fn pick_from(w: Seq<i16>, random: int, i: int, percent: int) -> int
    decreases w.len() - i,
{
    if i >= w.len() || i < 0 {
        0
    } else if w[i] != 0 && percent <= random < percent + w[i] {
        i + 1
    } else {
        pick_from(w, random, i + 1, percent + w[i])
    }
}

/// The entry of the weights `w` picked by `random` (from 1; 0 for none).
pub open spec fn weighted_pick(w: Seq<i16>, random: int) -> int {
    pick_from(w, random, 0, 0)
}

/// `r` is what the weights `w` pick for some roll from `lo` to `hi`.
pub open spec fn rolled_from(w: Seq<i16>, r: int, lo: int, hi: int) -> bool {
    exists|roll: int| lo <= roll <= hi && r == #[trigger] weighted_pick(w, roll)
}

/// The entry of the weights `w` picked by `random`.
pub fn pick_weighted(w: &[i16], random: i32) -> (r: i32)
    requires
        w@.len() <= 12,
    ensures
        r == weighted_pick(w@, random as int),
{
    let mut percent: i32 = 0;
    let mut i: usize = 0;
    while i < w.len()
        invariant
            i <= w@.len() <= 12,
            -32768 * i <= percent <= 32767 * i,
            pick_from(w@, random as int, i as int, percent as int) == weighted_pick(w@, random as int),
        decreases w@.len() - i,
    {
        let weight = w[i] as i32;
        if weight != 0 && compare(random, percent, percent + weight) {
            return (i + 1) as i32;
        }
        percent = percent + weight;
        i = i + 1;
    }
    0
}

/// The grade weights of a row.
pub open spec fn grade_weights(g: MakeItemGradeCodeRow) -> Seq<i16> {
    seq![g.grade_1, g.grade_2, g.grade_3, g.grade_4, g.grade_5, g.grade_6, g.grade_7, g.grade_8, g.grade_9]
}

/// The weapon class weights of a row.
pub open spec fn weapon_weights(d: MakeWeaponRow) -> Seq<i16> {
    seq![
        d.class_1,
        d.class_2,
        d.class_3,
        d.class_4,
        d.class_5,
        d.class_6,
        d.class_7,
        d.class_8,
        d.class_9,
        d.class_10,
        d.class_11,
        d.class_12,
    ]
}

/// The defensive class weights of a row (classes 8-12 weigh nothing).
pub open spec fn defensive_weights(d: MakeDefensiveRow) -> Seq<i16> {
    seq![d.class_1, d.class_2, d.class_3, d.class_4, d.class_5, d.class_6, d.class_7, 0, 0, 0, 0, 0]
}

/// Grade rows of code `key`.
pub open spec fn grade_key(key: i16) -> spec_fn(MakeItemGradeCodeRow) -> bool {
    |g: MakeItemGradeCodeRow| g.item_index == key
}

/// Weapon rows of level band `band`.
pub open spec fn weapon_band_is(band: i16) -> spec_fn(MakeWeaponRow) -> bool {
    |d: MakeWeaponRow| d.by_level == band
}

/// Defensive rows of level band `band`.
pub open spec fn defensive_band_is(band: i16) -> spec_fn(MakeDefensiveRow) -> bool {
    |d: MakeDefensiveRow| d.by_level == band
}

/// Rarity rows of item level `level`.
pub open spec fn lare_level_is(level: i16) -> spec_fn(MakeItemLareCodeRow) -> bool {
    |d: MakeItemLareCodeRow| d.level_grade == level
}

/// The first grade row of code `key`.
pub open spec fn grade_row(t: MakeItemTables, key: i16) -> Option<MakeItemGradeCodeRow> {
    crate::seq_util::first_match(t.grade_codes@, grade_key(key))
}

/// The first weapon row of level band `band`.
pub open spec fn weapon_row(t: MakeItemTables, band: i16) -> Option<MakeWeaponRow> {
    crate::seq_util::first_match(t.weapons@, weapon_band_is(band))
}

/// The first defensive row of level band `band`.
pub open spec fn defensive_row(t: MakeItemTables, band: i16) -> Option<MakeDefensiveRow> {
    crate::seq_util::first_match(t.defensives@, defensive_band_is(band))
}

/// The first rarity row of item level `level`.
pub open spec fn lare_row(t: MakeItemTables, level: i16) -> Option<MakeItemLareCodeRow> {
    crate::seq_util::first_match(t.lare_codes@, lare_level_is(level))
}

/// Find the first grade row of code `key`.
fn find_grade_row(rows: &Vec<MakeItemGradeCodeRow>, key: i16) -> (r: Option<MakeItemGradeCodeRow>)
    ensures
        r == crate::seq_util::first_match(rows@, grade_key(key)),
{
    let ghost p = grade_key(key);
    let mut i: usize = 0;
    proof {
        assert(rows@.skip(0) =~= rows@);
    }
    while i < rows.len()
        invariant
            i <= rows@.len(),
            p == grade_key(key),
            crate::seq_util::first_match(rows@.skip(i as int), p) == crate::seq_util::first_match(rows@, p),
        decreases rows@.len() - i,
    {
        proof {
            crate::seq_util::lemma_first_match_skip(rows@, p, i as int);
        }
        if rows[i].item_index == key {
            return Some(rows[i]);
        }
        i = i + 1;
    }
    proof {
        assert(rows@.skip(i as int).len() == 0);
    }
    None
}

/// Find the first weapon row of level band `band`.
fn find_weapon_row(rows: &Vec<MakeWeaponRow>, band: i16) -> (r: Option<MakeWeaponRow>)
    ensures
        r == crate::seq_util::first_match(rows@, weapon_band_is(band)),
{
    let ghost p = weapon_band_is(band);
    let mut i: usize = 0;
    proof {
        assert(rows@.skip(0) =~= rows@);
    }
    while i < rows.len()
        invariant
            i <= rows@.len(),
            p == weapon_band_is(band),
            crate::seq_util::first_match(rows@.skip(i as int), p) == crate::seq_util::first_match(rows@, p),
        decreases rows@.len() - i,
    {
        proof {
            crate::seq_util::lemma_first_match_skip(rows@, p, i as int);
        }
        if rows[i].by_level == band {
            return Some(rows[i]);
        }
        i = i + 1;
    }
    proof {
        assert(rows@.skip(i as int).len() == 0);
    }
    None
}

/// Find the first defensive row of level band `band`.
fn find_defensive_row(rows: &Vec<MakeDefensiveRow>, band: i16) -> (r: Option<MakeDefensiveRow>)
    ensures
        r == crate::seq_util::first_match(rows@, defensive_band_is(band)),
{
    let ghost p = defensive_band_is(band);
    let mut i: usize = 0;
    proof {
        assert(rows@.skip(0) =~= rows@);
    }
    while i < rows.len()
        invariant
            i <= rows@.len(),
            p == defensive_band_is(band),
            crate::seq_util::first_match(rows@.skip(i as int), p) == crate::seq_util::first_match(rows@, p),
        decreases rows@.len() - i,
    {
        proof {
            crate::seq_util::lemma_first_match_skip(rows@, p, i as int);
        }
        if rows[i].by_level == band {
            return Some(rows[i]);
        }
        i = i + 1;
    }
    proof {
        assert(rows@.skip(i as int).len() == 0);
    }
    None
}

/// Find the first rarity row of item level `level`.
fn find_lare_row(rows: &Vec<MakeItemLareCodeRow>, level: i16) -> (r: Option<MakeItemLareCodeRow>)
    ensures
        r == crate::seq_util::first_match(rows@, lare_level_is(level)),
{
    let ghost p = lare_level_is(level);
    let mut i: usize = 0;
    proof {
        assert(rows@.skip(0) =~= rows@);
    }
    while i < rows.len()
        invariant
            i <= rows@.len(),
            p == lare_level_is(level),
            crate::seq_util::first_match(rows@.skip(i as int), p) == crate::seq_util::first_match(rows@, p),
        decreases rows@.len() - i,
    {
        proof {
            crate::seq_util::lemma_first_match_skip(rows@, p, i as int);
        }
        if rows[i].level_grade == level {
            return Some(rows[i]);
        }
        i = i + 1;
    }
    proof {
        assert(rows@.skip(i as int).len() == 0);
    }
    None
}

// ── Weighted rolls ───────────────────────────────────────────────────

/// The grade that grade code `item_grade` gives for the roll `roll`
/// (0 when the code has no row or the roll picks nothing).
pub open spec fn grade_for(t: MakeItemTables, item_grade: i16, roll: int) -> int {
    match grade_row(t, item_grade) {
        Some(g) => weighted_pick(grade_weights(g), roll),
        None => 0,
    }
}

/// The grade of grade code `item_grade` for the roll `roll`.
pub fn grade_from_roll(t: &MakeItemTables, item_grade: i16, roll: i32) -> (r: i32)
    ensures
        r == grade_for(*t, item_grade, roll as int),
        0 <= r <= 9,
{
    let g = match find_grade_row(&t.grade_codes, item_grade) {
        Some(g) => g,
        None => return 0,
    };
    let grades: [i16; 9] = [
        g.grade_1,
        g.grade_2,
        g.grade_3,
        g.grade_4,
        g.grade_5,
        g.grade_6,
        g.grade_7,
        g.grade_8,
        g.grade_9,
    ];
    proof {
        assert(grades@ =~= grade_weights(g));
        lemma_pick_range(grade_weights(g), roll as int, 0, 0);
    }
    pick_weighted(&grades, roll)
}

/// Roll a grade (1-9) of grade code `item_grade` on a number from 1 to
/// 1000; 0 when the code has no row or the roll picks nothing.
pub fn get_item_grade(t: &MakeItemTables, item_grade: i16) -> (r: i32)
    ensures
        grade_row(*t, item_grade) is None ==> r == 0,
        grade_row(*t, item_grade) matches Some(g) ==> rolled_from(grade_weights(g), r as int, 1, 1000),
{
    let random = random_between(1, 1000);
    let r = grade_from_roll(t, item_grade, random);
    proof {
        if grade_row(*t, item_grade) is Some {
            assert(rolled_from(grade_weights(grade_row(*t, item_grade)->0), r as int, 1, 1000));
        }
    }
    r
}

/// `x / 10` rounded toward zero, as a level band.
pub open spec fn level_band(x: i32) -> i16 {
    (if x >= 0 {
        x / 10
    } else {
        -((-x) / 10)
    }) as i16
}

/// The class weights for a monster of `npc_level`: the weapon or the
/// defensive row of its level band.
pub open spec fn class_weights(t: MakeItemTables, npc_level: i32, is_weapon: bool) -> Option<Seq<i16>> {
    if is_weapon {
        match weapon_row(t, level_band(npc_level)) {
            Some(d) => Some(weapon_weights(d)),
            None => None,
        }
    } else {
        match defensive_row(t, level_band(npc_level)) {
            Some(d) => Some(defensive_weights(d)),
            None => None,
        }
    }
}

/// Roll a class (1-12) from `classes` on a number from 0 to 1000.
pub fn roll_weapon_class(classes: &[i16; 12]) -> (r: i32)
    ensures
        rolled_from(classes@, r as int, 0, 1000),
{
    let random = random_between(0, 1000);
    let r = pick_weighted(classes, random);
    assert(rolled_from(classes@, r as int, 0, 1000));
    r
}

/// The class that the roll `roll` picks for a monster of `npc_level` (0
/// when its level band has no row or the roll picks nothing).
pub open spec fn class_for(t: MakeItemTables, npc_level: i32, is_weapon: bool, roll: int) -> int {
    match class_weights(t, npc_level, is_weapon) {
        Some(w) => weighted_pick(w, roll),
        None => 0,
    }
}

/// The weapon (or defensive) class for a monster of `npc_level` and the
/// roll `roll`.
pub fn class_from_roll(t: &MakeItemTables, npc_level: i32, is_weapon: bool, roll: i32) -> (r: i32)
    ensures
        r == class_for(*t, npc_level, is_weapon, roll as int),
        0 <= r <= 12,
{
    let q = npc_level / 10;
    assert(q == (if npc_level >= 0 {
        npc_level / 10
    } else {
        -((-npc_level) / 10)
    }));
    let band = q as i16;
    assert(band == level_band(npc_level));
    if is_weapon {
        let d = match find_weapon_row(&t.weapons, band) {
            Some(d) => d,
            None => return 0,
        };
        let classes: [i16; 12] = [
            d.class_1,
            d.class_2,
            d.class_3,
            d.class_4,
            d.class_5,
            d.class_6,
            d.class_7,
            d.class_8,
            d.class_9,
            d.class_10,
            d.class_11,
            d.class_12,
        ];
        proof {
            assert(classes@ =~= weapon_weights(d));
            lemma_pick_range(weapon_weights(d), roll as int, 0, 0);
        }
        pick_weighted(&classes, roll)
    } else {
        let d = match find_defensive_row(&t.defensives, band) {
            Some(d) => d,
            None => return 0,
        };
        let classes: [i16; 12] = [
            d.class_1,
            d.class_2,
            d.class_3,
            d.class_4,
            d.class_5,
            d.class_6,
            d.class_7,
            0,
            0,
            0,
            0,
            0,
        ];
        proof {
            assert(classes@ =~= defensive_weights(d));
            lemma_pick_range(defensive_weights(d), roll as int, 0, 0);
        }
        pick_weighted(&classes, roll)
    }
}

/// Roll a weapon (or defensive) class for a monster of `npc_level`; 0
/// when its level band has no row or the roll picks nothing.
pub fn get_weapon_item_code_number(t: &MakeItemTables, npc_level: i32, is_weapon: bool) -> (r: i32)
    ensures
        class_weights(*t, npc_level, is_weapon) is None ==> r == 0,
        class_weights(*t, npc_level, is_weapon) matches Some(w) ==> rolled_from(w, r as int, 0, 1000),
{
    let random = random_between(0, 1000);
    let r = class_from_roll(t, npc_level, is_weapon, random);
    proof {
        if class_weights(*t, npc_level, is_weapon) is Some {
            assert(rolled_from(class_weights(*t, npc_level, is_weapon)->0, r as int, 0, 1000));
        }
    }
    r
}

/// The rarity weights (rare, magic, general) of a row.
pub open spec fn rarity_weights(d: MakeItemLareCodeRow) -> Seq<i16> {
    seq![d.lare_item, d.magic_item, d.general_item]
}

/// `code` is a code number of rarity `rarity` (1 rare, 2 magic, 3
/// general, 0 none) for item type `item_type` (1 weapon, 2 defensive,
/// 3 accessory).
pub open spec fn code_ok(rarity: int, item_type: i32, code: int) -> bool {
    if item_type == 3 && 1 <= rarity <= 3 {
        0 <= code <= 10
    } else if rarity == 1 && item_type == 1 {
        16 <= code <= 24
    } else if rarity == 1 && item_type == 2 {
        12 <= code <= 24
    } else if rarity == 2 && item_type == 1 {
        6 <= code <= 15
    } else if rarity == 2 && item_type == 2 {
        6 <= code <= 11
    } else if rarity == 3 && (item_type == 1 || item_type == 2) {
        code == 5
    } else {
        code == 0
    }
}

/// `code` is a code number for `item_type` of the rarity that the weights
/// `w` pick for some roll from 0 to 1000.
pub open spec fn code_for_roll(w: Seq<i16>, item_type: i32, code: int) -> bool {
    exists|roll: int| 0 <= roll <= 1000 && code_ok(#[trigger] weighted_pick(w, roll), item_type, code)
}

/// The rarity that the roll `roll` picks for an item of `level` (1 rare,
/// 2 magic, 3 general, 0 none), or `None` when the level has no rarity row.
pub open spec fn rarity_for(t: MakeItemTables, level: i32, roll: int) -> Option<int> {
    match lare_row(t, level as i16) {
        Some(d) => Some(weighted_pick(rarity_weights(d), roll)),
        None => None,
    }
}

/// The rarity of an item of `level` for the roll `roll`.
pub fn rarity_from_roll(t: &MakeItemTables, level: i32, roll: i32) -> (r: Option<i32>)
    ensures
        match rarity_for(*t, level, roll as int) {
            Some(x) => r == Some(x as i32) && 0 <= x <= 3,
            None => r is None,
        },
{
    let d = match find_lare_row(&t.lare_codes, level as i16) {
        Some(d) => d,
        None => return None,
    };
    let percents: [i16; 3] = [d.lare_item, d.magic_item, d.general_item];
    proof {
        assert(percents@ =~= rarity_weights(d));
        lemma_pick_range(rarity_weights(d), roll as int, 0, 0);
    }
    Some(pick_weighted(&percents, roll))
}

/// The range a code number of `rarity` for `item_type` is drawn from, or
/// `None` when the code is fixed.
pub open spec fn spec_code_range(rarity: int, item_type: i32) -> Option<(int, int)> {
    if item_type == 3 && 1 <= rarity <= 3 {
        Some((0, 10))
    } else if rarity == 1 && item_type == 1 {
        Some((16, 24))
    } else if rarity == 1 && item_type == 2 {
        Some((12, 24))
    } else if rarity == 2 && item_type == 1 {
        Some((6, 15))
    } else if rarity == 2 && item_type == 2 {
        Some((6, 11))
    } else {
        None
    }
}

/// The code number of `rarity` for `item_type` when `draw` is the number
/// drawn from its range (see `spec_code_range`): the draw itself, or the
/// fixed code (5 for a general weapon or defensive item, 0 otherwise).
pub open spec fn code_from(rarity: int, item_type: i32, draw: int) -> int {
    if spec_code_range(rarity, item_type) is Some {
        draw
    } else if rarity == 3 && (item_type == 1 || item_type == 2) {
        5
    } else {
        0
    }
}

/// The range a code number is drawn from.
pub fn code_range(rarity: i32, item_type: i32) -> (r: Option<(i32, i32)>)
    ensures
        match spec_code_range(rarity as int, item_type) {
            Some((lo, hi)) => r == Some((lo as i32, hi as i32)),
            None => r is None,
        },
{
    if item_type == 3 && 1 <= rarity && rarity <= 3 {
        Some((0, 10))
    } else if rarity == 1 && item_type == 1 {
        Some((16, 24))
    } else if rarity == 1 && item_type == 2 {
        Some((12, 24))
    } else if rarity == 2 && item_type == 1 {
        Some((6, 15))
    } else if rarity == 2 && item_type == 2 {
        Some((6, 11))
    } else {
        None
    }
}

/// The code number of `rarity` for `item_type` and the number `draw`.
pub fn code_from_draw(rarity: i32, item_type: i32, draw: i32) -> (r: i32)
    ensures
        r == code_from(rarity as int, item_type, draw as int),
{
    if code_range(rarity, item_type).is_some() {
        draw
    } else if rarity == 3 && (item_type == 1 || item_type == 2) {
        5
    } else {
        0
    }
}

/// A code drawn from its range is a code number of its rarity and type.
proof fn lemma_code_from_ok(rarity: int, item_type: i32, draw: int)
    requires
        spec_code_range(rarity, item_type) matches Some((lo, hi)) ==> lo <= draw <= hi,
    ensures
        code_ok(rarity, item_type, code_from(rarity, item_type, draw)),
        0 <= code_from(rarity, item_type, draw) <= 24 || spec_code_range(rarity, item_type) is Some,
{
}

/// Draws the code number of an item of `rarity` and `item_type`.
fn draw_code(rarity: i32, item_type: i32) -> (r: i32)
    ensures
        exists|draw: int|
            (spec_code_range(rarity as int, item_type) matches Some((lo, hi)) ==> lo <= draw <= hi)
            && r == #[trigger] code_from(rarity as int, item_type, draw),
        0 <= r <= 24,
{
    match code_range(rarity, item_type) {
        Some((lo, hi)) => {
            let d = random_between(lo, hi);
            let r = code_from_draw(rarity, item_type, d);
            assert(r == code_from(rarity as int, item_type, d as int));
            r
        },
        None => {
            let r = code_from_draw(rarity, item_type, 0);
            assert(r == code_from(rarity as int, item_type, 0));
            r
        },
    }
}

/// Roll a code number for an item of `level` and `item_type`: a rarity
/// on a number from 0 to 1000, then a number in the rarity's range for
/// the type (see `code_ok`); -1 when the level has no rarity row.
pub fn get_item_code_number(t: &MakeItemTables, level: i32, item_type: i32) -> (r: i32)
    ensures
        lare_row(*t, level as i16) is None ==> r == -1,
        lare_row(*t, level as i16) matches Some(d) ==> code_for_roll(rarity_weights(d), item_type, r as int),
{
    let random = random_between(0, 1000);
    let rarity = match rarity_from_roll(t, level, random) {
        Some(x) => x,
        None => return -1,
    };
    let r = draw_code(rarity, item_type);
    proof {
        let draw = choose|draw: int|
            (spec_code_range(rarity as int, item_type) matches Some((lo, hi)) ==> lo <= draw <= hi)
            && r == #[trigger] code_from(rarity as int, item_type, draw);
        lemma_code_from_ok(rarity as int, item_type, draw);
        let d = lare_row(*t, level as i16)->0;
        assert(code_ok(weighted_pick(rarity_weights(d), random as int), item_type, r as int));
    }
    r
}

// ── Item IDs ─────────────────────────────────────────────────────────

/// The value band of a weapon for a roll from 1 to 10000: 10M to 90M.
pub open spec fn weapon_band(r: int) -> int {
    if 1 <= r < 701 {
        10_000_000
    } else if 701 <= r < 1401 {
        20_000_000
    } else if 1401 <= r < 2101 {
        30_000_000
    } else if 2101 <= r < 2801 {
        40_000_000
    } else if 2801 <= r < 3501 {
        50_000_000
    } else if 3501 <= r < 5501 {
        60_000_000
    } else if 5501 <= r < 6501 {
        70_000_000
    } else if 6501 <= r < 8501 {
        80_000_000
    } else {
        90_000_000
    }
}

/// A weapon ID: 100M, the class times 100000, the value band, 10000 or
/// 50000, 0 or 5M, the code number times 10 and the grade.
pub open spec fn weapon_id(class: int, band_roll: int, r3: int, r4: int, code: int, grade: int) -> int {
    100_000_000 + class * 100_000 + weapon_band(band_roll) + (if r3 < 5000 {
        10_000int
    } else {
        50_000int
    }) + (if r4 < 5000 {
        0int
    } else {
        5_000_000int
    }) + code * 10 + grade
}

/// The value band and race code of a defensive item of `nation` for the
/// rolls `main` and `key` (0 to 10000).
pub open spec fn defensive_parts(nation: u8, main: int, key: int) -> (int, int) {
    if nation == 1 {
        if 0 <= main < 2000 {
            (0, 10_000)
        } else if 2000 <= main < 4000 {
            (40_000_000, 20_000)
        } else if 4000 <= main < 6000 {
            (60_000_000, 30_000)
        } else if 0 <= key < 5000 {
            (80_000_000, 20_000)
        } else {
            (80_000_000, 40_000)
        }
    } else {
        let race = if 0 <= key < 5000 {
            120_000int
        } else {
            130_000int
        };
        if 0 <= main < 3300 {
            (
                0,
                if 0 <= key < 3333 {
                    110_000
                } else if 3333 <= key < 6666 {
                    120_000
                } else {
                    130_000
                },
            )
        } else if 3300 <= main < 5600 {
            (40_000_000, race)
        } else if 5600 <= main < 7800 {
            (60_000_000, race)
        } else {
            (80_000_000, race)
        }
    }
}

/// The quality of a defensive item for a roll from 0 to 10000.
pub open spec fn defensive_quality(r: int) -> int {
    if 0 <= r < 2000 {
        1_000
    } else if 2000 <= r < 4000 {
        2_000
    } else if 4000 <= r < 6000 {
        3_000
    } else if 6000 <= r < 8000 {
        4_000
    } else {
        5_000
    }
}

/// A defensive ID: 200M, the value band, the class times 1M, the race
/// code, the quality, the code number times 10 and the grade.
pub open spec fn defensive_id(class: int, nation: u8, main: int, key: int, quality: int, code: int, grade: int) -> int {
    let (band, race) = defensive_parts(nation, main, key);
    200_000_000 + band + class * 1_000_000 + race + defensive_quality(quality) + code * 10 + grade
}

/// The value band of an accessory for a roll from 0 to 10000.
pub open spec fn accessory_band(r: int) -> int {
    if 0 <= r < 2500 {
        10_000_000
    } else if 2500 <= r < 5000 {
        20_000_000
    } else if 5000 <= r < 7500 {
        30_000_000
    } else {
        40_000_000
    }
}

/// An accessory ID: 300M, the value band, 110000 or 150000, the code
/// number times 10 and the grade.
pub open spec fn accessory_id(band_roll: int, r3: int, code: int, grade: int) -> int {
    300_000_000 + accessory_band(band_roll) + (if r3 < 5000 {
        110_000int
    } else {
        150_000int
    }) + code * 10 + grade
}

/// 1 when `r` has reached the threshold `t`, else 0.
pub open spec fn reached(r: int, t: int) -> int {
    if r >= t {
        1
    } else {
        0
    }
}

/// The value bands of weapons rise with the band roll: a roll from 1 on
/// gives 10 million for each of the thresholds 701, 1401, 2101, 2801, 3501,
/// 5501, 6501 and 8501 that it reached, plus 10 million; so a higher roll
/// never gives a lower band.
pub proof fn lemma_weapon_band_table(r: int, s: int)
    requires
        1 <= r,
    ensures
        weapon_band(r) == 10_000_000 * (1 + reached(r, 701) + reached(r, 1401) + reached(r, 2101)
            + reached(r, 2801) + reached(r, 3501) + reached(r, 5501) + reached(r, 6501) + reached(r, 8501)),
        r <= s ==> weapon_band(r) <= weapon_band(s),
{
}

/// The value bands of accessories rise with the band roll: a roll from 0
/// on gives 10 million for each of the thresholds 2500, 5000 and 7500 that
/// it reached, plus 10 million.
pub proof fn lemma_accessory_band_table(r: int, s: int)
    requires
        0 <= r,
    ensures
        accessory_band(r) == 10_000_000 * (1 + reached(r, 2500) + reached(r, 5000) + reached(r, 7500)),
        r <= s ==> accessory_band(r) <= accessory_band(s),
{
}

/// The quality of defensive items rises with its roll: a roll from 0 on
/// gives 1000 for each of the thresholds 2000, 4000, 6000 and 8000 that it
/// reached, plus 1000.
pub proof fn lemma_defensive_quality_table(r: int, s: int)
    requires
        0 <= r,
    ensures
        defensive_quality(r) == 1_000 * (1 + reached(r, 2000) + reached(r, 4000) + reached(r, 6000)
            + reached(r, 8000)),
        r <= s ==> defensive_quality(r) <= defensive_quality(s),
{
}

/// A weapon ID carries its parts in its digits: the grade in the last
/// digit, the code number in the three before, the bonus of the third roll
/// (1 below 5000, 5 from 5000) in the next, the class in the hundred-thousands
/// (plus 50 when the fourth roll gave the 5 million bonus), and the value
/// band above ten million, over the 100 million of every weapon.
pub proof fn lemma_weapon_id_digits(class: int, band_roll: int, r3: int, r4: int, code: int, grade: int)
    requires
        0 <= class <= 12,
        0 <= code <= 24,
        0 <= grade <= 9,
        1 <= band_roll,
    ensures
        ({
            let id = weapon_id(class, band_roll, r3, r4, code, grade);
            &&& id % 10 == grade
            &&& (id / 10) % 1000 == code
            &&& (id / 10_000) % 10 == if r3 < 5000 {
                1int
            } else {
                5int
            }
            &&& (id / 100_000) % 100 == class + if r4 < 5000 {
                0int
            } else {
                50int
            }
            &&& id / 10_000_000 == 10 + weapon_band(band_roll) / 10_000_000
        }),
{
    let b = weapon_band(band_roll) / 10_000_000;
    assert(weapon_band(band_roll) == b * 10_000_000);
    let x: int = if r3 < 5000 {
        1int
    } else {
        5int
    };
    let y: int = if r4 < 5000 {
        0int
    } else {
        50int
    };
    let id = weapon_id(class, band_roll, r3, r4, code, grade);
    assert(id == grade + 10 * code + 10_000 * x + 100_000 * (class + y) + 10_000_000 * (10 + b));
    assert(1 <= b <= 9);
    assert(id % 10 == grade && (id / 10) % 1000 == code && (id / 10_000) % 10 == x && (id / 100_000) % 100
        == class + y && id / 10_000_000 == 10 + b) by (nonlinear_arith)
        requires
            id == grade + 10 * code + 10_000 * x + 100_000 * (class + y) + 10_000_000 * (10 + b),
            0 <= grade <= 9,
            0 <= code <= 24,
            1 <= x <= 5,
            0 <= class <= 12,
            0 <= y <= 50,
            1 <= b <= 9,
    ;
}

/// Rarer weapons and defensive items get higher code numbers: any general
/// code is below any magic code, which is below any rare code; accessory
/// codes of any rarity lie in 0 to 10, and an item of no rarity has code 0.
pub proof fn lemma_code_numbers_ordered(item_type: i32, rare: int, magic: int, general: int)
    requires
        item_type == 1 || item_type == 2,
        code_ok(1, item_type, rare),
        code_ok(2, item_type, magic),
        code_ok(3, item_type, general),
    ensures
        general < magic < rare,
        0 <= general,
        rare <= 24,
        forall|k: int, c: int| 1 <= k <= 3 && code_ok(k, 3, c) ==> 0 <= c <= 10,
        forall|c: int| code_ok(0, item_type, c) ==> c == 0,
{
}

/// The parts of a defensive item: Karus items (nation 1) carry the race
/// codes 10000 to 40000 and El Morad items 110000 to 130000; the value band
/// is 0, 40, 60 or 80 million, 0 exactly for the lowest main rolls (below
/// 2000 for Karus, 3300 for El Morad), and never lower for a higher main
/// roll.
pub proof fn lemma_defensive_parts(nation: u8, main: int, main2: int, key: int)
    requires
        0 <= main <= main2,
        0 <= key,
    ensures
        ({
            let (band, race) = defensive_parts(nation, main, key);
            &&& nation == 1 ==> (race == 10_000 || race == 20_000 || race == 30_000 || race == 40_000)
            &&& nation != 1 ==> (race == 110_000 || race == 120_000 || race == 130_000)
            &&& (band == 0 || band == 40_000_000 || band == 60_000_000 || band == 80_000_000)
            &&& (band == 0 <==> main < if nation == 1 {
                2000int
            } else {
                3300int
            })
            &&& band <= defensive_parts(nation, main2, key).0
        }),
{
}

/// A defensive ID carries its parts in its digits: the grade in the last
/// digit, the code number in the two before, the quality in the thousands,
/// the race code in the ten-thousands and hundred-thousands, and the class
/// plus the value band in the millions, over the 200 million of every
/// defensive item.
pub proof fn lemma_defensive_id_digits(class: int, nation: u8, main: int, key: int, quality: int, code: int, grade: int)
    requires
        0 <= class <= 12,
        0 <= code <= 24,
        0 <= grade <= 9,
        0 <= main,
        0 <= key,
        0 <= quality,
    ensures
        ({
            let id = defensive_id(class, nation, main, key, quality, code, grade);
            let (band, race) = defensive_parts(nation, main, key);
            &&& id % 10 == grade
            &&& (id / 10) % 100 == code
            &&& (id / 1000) % 10 == defensive_quality(quality) / 1000
            &&& (id / 10_000) % 100 == race / 10_000
            &&& id / 1_000_000 == 200 + band / 1_000_000 + class
        }),
{
    let (band, race) = defensive_parts(nation, main, key);
    let q = defensive_quality(quality) / 1000;
    let rc = race / 10_000;
    let bd = band / 1_000_000;
    assert(defensive_quality(quality) == q * 1000 && 1 <= q <= 5);
    assert(race == rc * 10_000 && 1 <= rc <= 13);
    assert(band == bd * 1_000_000 && 0 <= bd <= 80);
    let id = defensive_id(class, nation, main, key, quality, code, grade);
    assert(id == grade + 10 * code + 1000 * q + 10_000 * rc + 1_000_000 * (200 + bd + class));
    assert(id % 10 == grade && (id / 10) % 100 == code && (id / 1000) % 10 == q && (id / 10_000) % 100 == rc
        && id / 1_000_000 == 200 + bd + class) by (nonlinear_arith)
        requires
            id == grade + 10 * code + 1000 * q + 10_000 * rc + 1_000_000 * (200 + bd + class),
            0 <= grade <= 9,
            0 <= code <= 24,
            1 <= q <= 5,
            1 <= rc <= 13,
            0 <= bd <= 80,
            0 <= class <= 12,
    ;
}

/// An accessory ID carries its parts in its digits: the grade in the last
/// digit, the code number in the two before, the bonus of the third roll
/// (11 below 5000, 15 from 5000) in the ten-thousands and
/// hundred-thousands, and the value band above, over the 300 million of
/// every accessory.
pub proof fn lemma_accessory_id_digits(band_roll: int, r3: int, code: int, grade: int)
    requires
        0 <= code <= 24,
        0 <= grade <= 9,
        0 <= band_roll,
    ensures
        ({
            let id = accessory_id(band_roll, r3, code, grade);
            &&& id % 10 == grade
            &&& (id / 10) % 100 == code
            &&& (id / 10_000) % 100 == if r3 < 5000 {
                11int
            } else {
                15int
            }
            &&& id / 10_000_000 == 30 + accessory_band(band_roll) / 10_000_000
        }),
{
    let b = accessory_band(band_roll) / 10_000_000;
    assert(accessory_band(band_roll) == b * 10_000_000 && 1 <= b <= 4);
    let x: int = if r3 < 5000 {
        11int
    } else {
        15int
    };
    let id = accessory_id(band_roll, r3, code, grade);
    assert(id == grade + 10 * code + 10_000 * x + 10_000_000 * (30 + b));
    assert(id % 10 == grade && (id / 10) % 100 == code && (id / 10_000) % 100 == x && id / 10_000_000 == 30 + b)
        by (nonlinear_arith)
        requires
            id == grade + 10 * code + 10_000 * x + 10_000_000 * (30 + b),
            0 <= grade <= 9,
            0 <= code <= 24,
            11 <= x <= 15,
            1 <= b <= 4,
    ;
}

/// The weapon ID of the rolls.
pub fn compose_weapon_id(class: i32, band_roll: i32, r3: i32, r4: i32, code: i32, grade: i32) -> (r: u32)
    requires
        0 <= class <= 12,
        0 <= code <= 24,
        0 <= grade <= 9,
    ensures
        r == weapon_id(class as int, band_roll as int, r3 as int, r4 as int, code as int, grade as int),
{
    let band: u32 = if compare(band_roll, 1, 701) {
        10_000_000
    } else if compare(band_roll, 701, 1401) {
        20_000_000
    } else if compare(band_roll, 1401, 2101) {
        30_000_000
    } else if compare(band_roll, 2101, 2801) {
        40_000_000
    } else if compare(band_roll, 2801, 3501) {
        50_000_000
    } else if compare(band_roll, 3501, 5501) {
        60_000_000
    } else if compare(band_roll, 5501, 6501) {
        70_000_000
    } else if compare(band_roll, 6501, 8501) {
        80_000_000
    } else {
        90_000_000
    };
    let rand3: u32 = if r3 < 5000 {
        10_000
    } else {
        50_000
    };
    let rand4: u32 = if r4 < 5000 {
        0
    } else {
        5_000_000
    };
    100_000_000 + class as u32 * 100_000 + band + rand3 + rand4 + code as u32 * 10 + grade as u32
}

/// The defensive ID of the rolls.
pub fn compose_defensive_id(
    class: i32,
    nation: u8,
    main: i32,
    key: i32,
    quality: i32,
    code: i32,
    grade: i32,
) -> (r: u32)
    requires
        0 <= class <= 12,
        0 <= code <= 24,
        0 <= grade <= 9,
    ensures
        r == defensive_id(class as int, nation, main as int, key as int, quality as int, code as int, grade as int),
{
    let (band, race): (u32, u32) = if nation == 1 {
        if compare(main, 0, 2000) {
            (0, 10_000)
        } else if compare(main, 2000, 4000) {
            (40_000_000, 20_000)
        } else if compare(main, 4000, 6000) {
            (60_000_000, 30_000)
        } else if compare(key, 0, 5000) {
            (80_000_000, 20_000)
        } else {
            (80_000_000, 40_000)
        }
    } else {
        let race: u32 = if compare(key, 0, 5000) {
            120_000
        } else {
            130_000
        };
        if compare(main, 0, 3300) {
            let r3: u32 = if compare(key, 0, 3333) {
                110_000
            } else if compare(key, 3333, 6666) {
                120_000
            } else {
                130_000
            };
            (0, r3)
        } else if compare(main, 3300, 5600) {
            (40_000_000, race)
        } else if compare(main, 5600, 7800) {
            (60_000_000, race)
        } else {
            (80_000_000, race)
        }
    };
    let q: u32 = if compare(quality, 0, 2000) {
        1_000
    } else if compare(quality, 2000, 4000) {
        2_000
    } else if compare(quality, 4000, 6000) {
        3_000
    } else if compare(quality, 6000, 8000) {
        4_000
    } else {
        5_000
    };
    200_000_000 + band + class as u32 * 1_000_000 + race + q + code as u32 * 10 + grade as u32
}

/// The accessory ID of the rolls.
pub fn compose_accessory_id(band_roll: i32, r3: i32, code: i32, grade: i32) -> (r: u32)
    requires
        0 <= code <= 24,
        0 <= grade <= 9,
    ensures
        r == accessory_id(band_roll as int, r3 as int, code as int, grade as int),
{
    let band: u32 = if compare(band_roll, 0, 2500) {
        10_000_000
    } else if compare(band_roll, 2500, 5000) {
        20_000_000
    } else if compare(band_roll, 5000, 7500) {
        30_000_000
    } else {
        40_000_000
    };
    let rand3: u32 = if r3 < 5000 {
        110_000
    } else {
        150_000
    };
    300_000_000 + band + rand3 + code as u32 * 10 + grade as u32
}

// ── Production ───────────────────────────────────────────────────────

/// A pick of weights is 0 (none) or the number of one of them.
pub proof fn lemma_pick_range(w: Seq<i16>, random: int, i: int, percent: int)
    requires
        0 <= i,
    ensures
        0 <= pick_from(w, random, i, percent) <= w.len(),
    decreases w.len() - i,
{
    if i < w.len() {
        lemma_pick_range(w, random, i + 1, percent + w[i]);
    }
}

/// `x / 5` rounded toward zero: the item level of a monster level.
pub open spec fn item_level_of(x: i32) -> i32 {
    (if x >= 0 {
        x / 5
    } else {
        -((-x) / 5)
    }) as i32
}

/// `r` is a weapon of `grade` that the tables can produce for a monster
/// of `npc_level`.
pub open spec fn produced_weapon(t: MakeItemTables, npc_level: i32, grade: int, r: int) -> bool {
    &&& class_weights(t, npc_level, true) is Some
    &&& lare_row(t, item_level_of(npc_level) as i16) is Some
    &&& exists|class: int, band: int, r3: int, r4: int, code: int|
        #![trigger weapon_id(class, band, r3, r4, code, grade)]
        rolled_from(class_weights(t, npc_level, true)->0, class, 0, 1000) && class != 0 && 1 <= band
            <= 10000 && 1 <= r3 <= 10000 && 1 <= r4 <= 10000 && code_for_roll(
            rarity_weights(lare_row(t, item_level_of(npc_level) as i16)->0),
            1,
            code,
        ) && r == weapon_id(class, band, r3, r4, code, grade)
}

/// `r` is a defensive item of `grade` that the tables can produce for a
/// monster of `npc_level` killed mostly by `nation`.
pub open spec fn produced_defensive(t: MakeItemTables, npc_level: i32, nation: u8, grade: int, r: int) -> bool {
    &&& class_weights(t, npc_level, false) is Some
    &&& lare_row(t, item_level_of(npc_level) as i16) is Some
    &&& exists|class: int, main: int, key: int, quality: int, code: int|
        #![trigger defensive_id(class, nation, main, key, quality, code, grade)]
        rolled_from(class_weights(t, npc_level, false)->0, class, 0, 1000) && class != 0 && 0
            <= main <= 10000 && 0 <= key <= 10000 && 0 <= quality <= 10000 && code_for_roll(
            rarity_weights(lare_row(t, item_level_of(npc_level) as i16)->0),
            2,
            code,
        ) && r == defensive_id(class, nation, main, key, quality, code, grade)
}

/// `r` is an accessory of `grade` that the tables can produce for a
/// monster of `npc_level`.
pub open spec fn produced_accessory(t: MakeItemTables, npc_level: i32, grade: int, r: int) -> bool {
    &&& lare_row(t, item_level_of(npc_level) as i16) is Some
    &&& exists|band: int, r3: int, code: int|
        #![trigger accessory_id(band, r3, code, grade)]
        0 <= band <= 10000 && 1 <= r3 <= 10000 && code_for_roll(
            rarity_weights(lare_row(t, item_level_of(npc_level) as i16)->0),
            3,
            code,
        ) && r == accessory_id(band, r3, code, grade)
}

/// `r` is an item that the tables can produce from grade code
/// `item_number` for a monster of `npc_level` killed mostly by `nation`:
/// a rolled grade other than 0, and a weapon, defensive item or
/// accessory of that grade.
pub open spec fn produced_item(t: MakeItemTables, item_number: i32, npc_level: i32, nation: u8, r: int) -> bool {
    &&& grade_row(t, item_number as i16) is Some
    &&& exists|grade: int|
        #![trigger rolled_from(grade_weights(grade_row(t, item_number as i16)->0), grade, 1, 1000)]
        rolled_from(grade_weights(grade_row(t, item_number as i16)->0), grade, 1, 1000) && 1 <= grade
            <= 9 && (produced_weapon(t, npc_level, grade, r) || produced_defensive(t, npc_level, nation, grade, r)
            || produced_accessory(t, npc_level, grade, r))
}

/// Every roll from `lo` to `hi` picks one of the weights `w`.
pub open spec fn never_nothing(w: Seq<i16>, lo: int, hi: int) -> bool {
    forall|roll: int| lo <= roll <= hi ==> #[trigger] weighted_pick(w, roll) != 0
}

/// No roll from `lo` to `hi` picks any of the weights `w`.
pub open spec fn always_nothing(w: Seq<i16>, lo: int, hi: int) -> bool {
    forall|roll: int| lo <= roll <= hi ==> #[trigger] weighted_pick(w, roll) == 0
}

/// The tables produce an item from grade code `item_number` for a monster
/// of `npc_level` whatever the rolls: the grade code has a row whose every
/// roll picks a grade, the item level has a rarity row, and the level band
/// has a weapon and a defensive row whose every roll picks a class.
pub open spec fn production_certain(t: MakeItemTables, item_number: i32, npc_level: i32) -> bool {
    &&& grade_row(t, item_number as i16) matches Some(g) && never_nothing(grade_weights(g), 1, 1000)
    &&& lare_row(t, item_level_of(npc_level) as i16) is Some
    &&& class_weights(t, npc_level, true) matches Some(w) && never_nothing(w, 0, 1000)
    &&& class_weights(t, npc_level, false) matches Some(w) && never_nothing(w, 0, 1000)
}

/// The draws of one production: the grade roll, the kind roll (weapon,
/// defensive item or accessory), the class roll, the rarity roll, the
/// number drawn for the code, and the three rolls of the item ID (value
/// band, then the two extra rolls; for a defensive item the value band,
/// the race roll and the quality).
#[derive(Debug, Clone, Copy, PartialEq, Eq, Structural)]
pub struct ItemRolls {
    pub grade: i32,
    pub kind: i32,
    pub class: i32,
    pub rarity: i32,
    pub code: i32,
    pub id1: i32,
    pub id2: i32,
    pub id3: i32,
}

/// The item that the rolls `k` give from grade code `item_number` for a
/// monster of `npc_level` killed mostly by `nation`, or 0: the grade of
/// the grade roll (0 ends it); then a kind roll of 1 to 4000 gives a
/// weapon, 4001 to 8000 a defensive item and anything else an accessory;
/// a weapon or defensive item needs a class other than 0 for the class
/// roll, and every kind needs a rarity row for the item level.
pub open spec fn item_spec(t: MakeItemTables, item_number: i32, npc_level: i32, nation: u8, k: ItemRolls) -> int {
    let grade = grade_for(t, item_number as i16, k.grade as int);
    let rarity = rarity_for(t, item_level_of(npc_level), k.rarity as int);
    if grade == 0 {
        0
    } else if 1 <= k.kind < 4001 {
        let class = class_for(t, npc_level, true, k.class as int);
        if class == 0 || rarity is None {
            0
        } else {
            weapon_id(class, k.id1 as int, k.id2 as int, k.id3 as int, code_from(rarity->0, 1, k.code as int), grade)
        }
    } else if 4001 <= k.kind < 8001 {
        let class = class_for(t, npc_level, false, k.class as int);
        if class == 0 || rarity is None {
            0
        } else {
            defensive_id(
                class,
                nation,
                k.id1 as int,
                k.id2 as int,
                k.id3 as int,
                code_from(rarity->0, 2, k.code as int),
                grade,
            )
        }
    } else {
        if rarity is None {
            0
        } else {
            accessory_id(k.id1 as int, k.id2 as int, code_from(rarity->0, 3, k.code as int), grade)
        }
    }
}

/// The item that the rolls `k` give (see `item_spec`); the number drawn
/// for the code lies in 0 to 24, as every code range does.
pub fn item_from_rolls(t: &MakeItemTables, item_number: i32, npc_level: i32, nation: u8, k: ItemRolls) -> (r: u32)
    requires
        0 <= k.code <= 24,
    ensures
        r == item_spec(*t, item_number, npc_level, nation, k),
{
    let grade = grade_from_roll(t, item_number as i16, k.grade);
    if grade == 0 {
        return 0;
    }
    let q = npc_level / 5;
    assert(q == item_level_of(npc_level));
    let rarity = rarity_from_roll(t, q, k.rarity);
    if compare(k.kind, 1, 4001) {
        let class = class_from_roll(t, npc_level, true, k.class);
        if class == 0 {
            return 0;
        }
        match rarity {
            None => 0,
            Some(rar) => {
                let code = code_from_draw(rar, 1, k.code);
                compose_weapon_id(class, k.id1, k.id2, k.id3, code, grade)
            },
        }
    } else if compare(k.kind, 4001, 8001) {
        let class = class_from_roll(t, npc_level, false, k.class);
        if class == 0 {
            return 0;
        }
        match rarity {
            None => 0,
            Some(rar) => {
                let code = code_from_draw(rar, 2, k.code);
                compose_defensive_id(class, nation, k.id1, k.id2, k.id3, code, grade)
            },
        }
    } else {
        match rarity {
            None => 0,
            Some(rar) => {
                let code = code_from_draw(rar, 3, k.code);
                compose_accessory_id(k.id1, k.id2, code, grade)
            },
        }
    }
}

/// The kind of item that a kind roll gives: 1 weapon, 2 defensive item,
/// 3 accessory.
pub open spec fn kind_of(kind: int) -> i32 {
    if 1 <= kind < 4001 {
        1
    } else if 4001 <= kind < 8001 {
        2
    } else {
        3
    }
}

/// The rolls `k` are ones that a production draws: the grade roll from 1
/// to 1000, the kind roll from 1 to 10000, the class and rarity rolls
/// from 0 to 1000, the code drawn from the range of the rarity picked
/// (0 when the code is fixed or there is no rarity row), and the ID rolls
/// in the ranges of the kind.
pub open spec fn rolls_drawn(t: MakeItemTables, npc_level: i32, k: ItemRolls) -> bool {
    &&& 1 <= k.grade <= 1000
    &&& 1 <= k.kind <= 10000
    &&& 0 <= k.class <= 1000
    &&& 0 <= k.rarity <= 1000
    &&& match rarity_for(t, item_level_of(npc_level), k.rarity as int) {
        Some(rar) => match spec_code_range(rar, kind_of(k.kind as int)) {
            Some((lo, hi)) => lo <= k.code <= hi,
            None => k.code == 0,
        },
        None => k.code == 0,
    }
    &&& if kind_of(k.kind as int) == 1 {
        1 <= k.id1 <= 10000 && 1 <= k.id2 <= 10000 && 1 <= k.id3 <= 10000
    } else if kind_of(k.kind as int) == 2 {
        0 <= k.id1 <= 10000 && 0 <= k.id2 <= 10000 && 0 <= k.id3 <= 10000
    } else {
        0 <= k.id1 <= 10000 && 1 <= k.id2 <= 10000 && k.id3 == 0
    }
}

/// Draws the rolls of one production.
fn draw_rolls(t: &MakeItemTables, npc_level: i32) -> (k: ItemRolls)
    ensures
        rolls_drawn(*t, npc_level, k),
{
    let grade = random_between(1, 1000);
    let kind = random_between(1, 10000);
    let class = random_between(0, 1000);
    let rarity_roll = random_between(0, 1000);
    let item_type: i32 = if compare(kind, 1, 4001) {
        1
    } else if compare(kind, 4001, 8001) {
        2
    } else {
        3
    };
    let q = npc_level / 5;
    assert(q == item_level_of(npc_level));
    let code = match rarity_from_roll(t, q, rarity_roll) {
        Some(rar) => match code_range(rar, item_type) {
            Some((lo, hi)) => random_between(lo, hi),
            None => 0,
        },
        None => 0,
    };
    let (id1, id2, id3) = if item_type == 1 {
        (random_between(1, 10000), random_between(1, 10000), random_between(1, 10000))
    } else if item_type == 2 {
        (random_between(0, 10000), random_between(0, 10000), random_between(0, 10000))
    } else {
        (random_between(0, 10000), random_between(1, 10000), 0)
    };
    ItemRolls { grade, kind, class, rarity: rarity_roll, code, id1, id2, id3 }
}

/// What the rolls of a production give: 0 without a grade row, without a
/// rarity row or when no grade roll picks a grade; an item that the
/// tables can produce when not 0; and not 0 when production is certain.
proof fn lemma_item_spec_drawn(t: MakeItemTables, item_number: i32, npc_level: i32, nation: u8, k: ItemRolls)
    requires
        rolls_drawn(t, npc_level, k),
    ensures
        0 <= k.code <= 24,
        ({
            let r = item_spec(t, item_number, npc_level, nation, k);
            &&& grade_row(t, item_number as i16) is None ==> r == 0
            &&& lare_row(t, item_level_of(npc_level) as i16) is None ==> r == 0
            &&& (grade_row(t, item_number as i16) matches Some(g) && always_nothing(grade_weights(g), 1, 1000))
                ==> r == 0
            &&& r != 0 ==> produced_item(t, item_number, npc_level, nation, r)
            &&& production_certain(t, item_number, npc_level) ==> r != 0
        }),
{
    let r = item_spec(t, item_number, npc_level, nation, k);
    let grade = grade_for(t, item_number as i16, k.grade as int);
    let rarity = rarity_for(t, item_level_of(npc_level), k.rarity as int);
    let ty = kind_of(k.kind as int);
    if let Some(g) = grade_row(t, item_number as i16) {
        lemma_pick_range(grade_weights(g), k.grade as int, 0, 0);
    }
    if let Some(d) = lare_row(t, item_level_of(npc_level) as i16) {
        lemma_pick_range(rarity_weights(d), k.rarity as int, 0, 0);
    }
    if let Some(w) = class_weights(t, npc_level, true) {
        lemma_pick_range(w, k.class as int, 0, 0);
    }
    if let Some(w) = class_weights(t, npc_level, false) {
        lemma_pick_range(w, k.class as int, 0, 0);
    }
    if rarity is Some {
        lemma_code_from_ok(rarity->0, ty, k.code as int);
    }
    if r != 0 {
        let gw = grade_weights(grade_row(t, item_number as i16)->0);
        assert(rolled_from(gw, grade, 1, 1000));
        let d = lare_row(t, item_level_of(npc_level) as i16)->0;
        let code = code_from(rarity->0, ty, k.code as int);
        assert(code_for_roll(rarity_weights(d), ty, code));
        if ty == 1 {
            let class = class_for(t, npc_level, true, k.class as int);
            assert(rolled_from(class_weights(t, npc_level, true)->0, class, 0, 1000));
            assert(r == weapon_id(class, k.id1 as int, k.id2 as int, k.id3 as int, code, grade));
            assert(produced_weapon(t, npc_level, grade, r));
        } else if ty == 2 {
            let class = class_for(t, npc_level, false, k.class as int);
            assert(rolled_from(class_weights(t, npc_level, false)->0, class, 0, 1000));
            assert(r == defensive_id(class, nation, k.id1 as int, k.id2 as int, k.id3 as int, code, grade));
            assert(produced_defensive(t, npc_level, nation, grade, r));
        } else {
            assert(r == accessory_id(k.id1 as int, k.id2 as int, code, grade));
            assert(produced_accessory(t, npc_level, grade, r));
        }
    }
}

/// Produce a loot item from grade code `item_number` for a monster of
/// `npc_level` killed mostly by `max_damaged_nation` (1 Karus, else El
/// Morad): the rolls are drawn and give the item of `item_from_rolls` (a
/// weapon 4 times in 10, a defensive item 4 in 10, an accessory 2 in 10).
/// Returns 0 when a roll or a table lookup fails.
pub fn item_production(t: &MakeItemTables, item_number: i32, npc_level: i32, max_damaged_nation: u8) -> (r: u32)
    ensures
        exists|k: ItemRolls|
            rolls_drawn(*t, npc_level, k) && r == #[trigger] item_spec(*t, item_number, npc_level, max_damaged_nation, k),
        grade_row(*t, item_number as i16) is None ==> r == 0,
        lare_row(*t, item_level_of(npc_level) as i16) is None ==> r == 0,
        grade_row(*t, item_number as i16) matches Some(g) && always_nothing(grade_weights(g), 1, 1000) ==> r == 0,
        r != 0 ==> produced_item(*t, item_number, npc_level, max_damaged_nation, r as int),
        production_certain(*t, item_number, npc_level) ==> r != 0,
{
    let k = draw_rolls(t, npc_level);
    proof {
        lemma_item_spec_drawn(*t, item_number, npc_level, max_damaged_nation, k);
    }
    item_from_rolls(t, item_number, npc_level, max_damaged_nation, k)
}

} // verus!
