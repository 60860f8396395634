//! The periodic character save: how unsigned game values are written into
//! the signed columns of the character table.

use vstd::prelude::*;

verus! {

/// The periodic save opcode.
pub const WIZ_DATASAVE: u8 = 0x37;

/// An unsigned amount (gold, national points) as a signed database integer:
/// amounts above `i32::MAX` are stored as `i32::MAX`.
pub fn db_amount(v: u32) -> (r: i32)
    ensures
        r == if v > i32::MAX {
            i32::MAX as int
        } else {
            v as int
        },
{
    if v > i32::MAX as u32 {
        i32::MAX
    } else {
        v as i32
    }
}

/// The stat and skill points row of a character.
#[derive(Debug, Clone, Copy, PartialEq, Eq)]
pub struct StatPointsRow {
    pub str_val: i16,
    pub sta: i16,
    pub dex: i16,
    pub intel: i16,
    pub cha: i16,
    pub free_points: i16,
    pub skill_points: [i16; 10],
}

/// The stat and skill points of a character as the row that stores them;
/// every byte keeps its value.
pub fn stat_points_row(
    str_val: u8,
    sta: u8,
    dex: u8,
    intel: u8,
    cha: u8,
    free_points: u8,
    skill_points: [u8; 10],
) -> (r: StatPointsRow)
    ensures
        r.str_val == str_val,
        r.sta == sta,
        r.dex == dex,
        r.intel == intel,
        r.cha == cha,
        r.free_points == free_points,
        forall|i: int| 0 <= i < 10 ==> #[trigger] r.skill_points@[i] == skill_points@[i],
{
    let mut skills: [i16; 10] = [0i16; 10];
    let mut i: usize = 0;
    while i < 10
        invariant
            i <= 10,
            skills@.len() == 10,
            forall|j: int| 0 <= j < i ==> #[trigger] skills@[j] == skill_points@[j],
        decreases 10 - i,
    {
        skills[i] = skill_points[i] as i16;
        i = i + 1;
    }
    StatPointsRow {
        str_val: str_val as i16,
        sta: sta as i16,
        dex: dex as i16,
        intel: intel as i16,
        cha: cha as i16,
        free_points: free_points as i16,
        skill_points: skills,
    }
}

} // verus!
