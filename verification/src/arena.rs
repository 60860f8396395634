//! PvP rivals and the anger gauge.
//!
//! In Ardream and Ronark Land, a player killed by an enemy without a
//! running rivalry takes the killer as rival for five minutes, and its
//! anger gauge (0-5) fills by one. When a player kills its rival while the
//! rivalry runs, the kill is a revenge kill: it earns a bonus of 150
//! national points and ends the rivalry. The gauge empties on regene.

use vstd::prelude::*;
use vstd::string::StringSliceAdditionalSpecFns;
use crate::packet::{Packet, le2, le4};

pub use crate::world::{ZONE_ARDREAM, ZONE_RONARK_LAND, ZONE_RONARK_LAND_BASE};

verus! {

/// Sub-opcode: assign a rival.
/// The PvP packet opcode.
pub const WIZ_PVP: u8 = 0x88;

/// PvP sub-opcode: a rival was assigned.
pub const PVP_ASSIGN_RIVAL: u8 = 1;

/// Sub-opcode: remove the rival.
pub const PVP_REMOVE_RIVAL: u8 = 2;

/// Sub-opcode: update the anger gauge on the helmet.
pub const PVP_UPDATE_HELMET: u8 = 5;

/// Sub-opcode: reset the anger gauge.
pub const PVP_RESET_HELMET: u8 = 6;

/// Length of a rivalry, in seconds.
pub const RIVALRY_DURATION: u64 = 300;

/// National points for a revenge kill.
pub const RIVALRY_NP_BONUS: u16 = 150;

/// Highest anger gauge level.
pub const MAX_ANGER_GAUGE: u8 = 5;

/// Whether the rival system runs in `zone_id`.
pub open spec fn spec_is_rivalry_zone(zone_id: u16) -> bool {
    zone_id == ZONE_ARDREAM || zone_id == ZONE_RONARK_LAND || zone_id == ZONE_RONARK_LAND_BASE
}

/// Whether the rival system runs in `zone_id` (Ardream, Ronark Land and
/// its base).
pub fn is_rivalry_zone(zone_id: u16) -> (r: bool)
    ensures
        r == spec_is_rivalry_zone(zone_id),
{
    zone_id == ZONE_ARDREAM || zone_id == ZONE_RONARK_LAND || zone_id == ZONE_RONARK_LAND_BASE
}

/// A player's rivalry and anger gauge.
#[derive(Debug, Clone, Copy, PartialEq, Eq, Structural)]
pub struct RivalryState {
    /// Session of the rival (negative for none).
    pub rival_id: i16,
    /// Unix time at which the rivalry ends.
    pub rival_expiry_time: u64,
    /// Anger gauge (0-5).
    pub anger_gauge: u8,
}

/// The player has a rivalry running at `now`.
pub open spec fn has_running_rivalry(s: RivalryState, now: u64) -> bool {
    s.rival_id >= 0 && now < s.rival_expiry_time
}

/// `s` with no rival.
pub open spec fn without_rival(s: RivalryState) -> RivalryState {
    RivalryState { rival_id: -1i16, rival_expiry_time: 0, ..s }
}

/// A PvP kill of `victim` (session `victim_sid`) by `killer` (session
/// `killer_sid`) in `zone_id` at `now`. Outside the rivalry zones nothing
/// happens. Else the victim's gauge fills by one (up to 5), the victim
/// takes the killer as rival for five minutes unless a rivalry runs, and
/// a kill of the killer's running rival is a revenge kill, which ends the
/// killer's rivalry. Returns whether it was a revenge kill (worth
/// `RIVALRY_NP_BONUS`).
pub fn on_pvp_kill(
    killer: &mut RivalryState,
    victim: &mut RivalryState,
    killer_sid: u16,
    victim_sid: u16,
    zone_id: u16,
    now_secs: u64,
) -> (r: bool)
    requires
        now_secs + RIVALRY_DURATION <= u64::MAX,
    ensures
        !spec_is_rivalry_zone(zone_id) ==> !r && *final(killer) == *old(killer) && *final(victim)
            == *old(victim),
        spec_is_rivalry_zone(zone_id) ==> {
            &&& r == (old(killer).rival_id == victim_sid as i16 && now_secs
                < old(killer).rival_expiry_time)
            &&& final(victim).anger_gauge == if old(victim).anger_gauge < MAX_ANGER_GAUGE {
                (old(victim).anger_gauge + 1) as u8
            } else {
                old(victim).anger_gauge
            }
            &&& if has_running_rivalry(*old(victim), now_secs) {
                final(victim).rival_id == old(victim).rival_id && final(victim).rival_expiry_time
                    == old(victim).rival_expiry_time
            } else {
                final(victim).rival_id == killer_sid as i16 && final(victim).rival_expiry_time
                    == now_secs + RIVALRY_DURATION
            }
            &&& *final(killer) == if r {
                without_rival(*old(killer))
            } else {
                *old(killer)
            }
        },
{
    if !is_rivalry_zone(zone_id) {
        return false;
    }
    let is_revenge = killer.rival_id == victim_sid as i16 && now_secs < killer.rival_expiry_time;
    if victim.anger_gauge < MAX_ANGER_GAUGE {
        victim.anger_gauge = victim.anger_gauge + 1;
    }
    if !(victim.rival_id >= 0 && now_secs < victim.rival_expiry_time) {
        victim.rival_id = killer_sid as i16;
        victim.rival_expiry_time = now_secs + RIVALRY_DURATION;
    }
    if is_revenge {
        killer.rival_id = -1;
        killer.rival_expiry_time = 0;
    }
    is_revenge
}

/// Empty the anger gauge (on regene); returns whether it held anything,
/// in which case the client's helmet is reset.
pub fn reset_anger_gauge(state: &mut RivalryState) -> (r: bool)
    ensures
        r == (old(state).anger_gauge > 0),
        *final(state) == (RivalryState { anger_gauge: 0, ..*old(state) }),
{
    let changed = state.anger_gauge > 0;
    state.anger_gauge = 0;
    changed
}

/// The gauge shown on the helmet: the level capped at 5, and whether it
/// is full.
pub fn helmet_gauge(gauge: u8) -> (r: (u8, bool))
    ensures
        r.0 == if gauge < MAX_ANGER_GAUGE {
            gauge
        } else {
            MAX_ANGER_GAUGE
        },
        r.1 == (gauge >= MAX_ANGER_GAUGE),
{
    let clamped = if gauge < MAX_ANGER_GAUGE {
        gauge
    } else {
        MAX_ANGER_GAUGE
    };
    (clamped, clamped >= MAX_ANGER_GAUGE)
}

/// The anger gauge never exceeds its maximum: a kill fills it by at most
/// one and stops at 5.
pub proof fn lemma_gauge_stays_capped(gauge: u8)
    requires
        gauge <= MAX_ANGER_GAUGE,
    ensures
        (if gauge < MAX_ANGER_GAUGE {
            (gauge + 1) as u8
        } else {
            gauge
        }) <= MAX_ANGER_GAUGE,
{
}

/// The clan part of a rival notice: the clan name as a short string, or two
/// zero bytes when the rival has no clan (or an empty clan name).
pub open spec fn clan_field(clan_name: Option<&str>) -> Seq<u8> {
    match clan_name {
        Some(name) => if name.spec_bytes().len() > 0 {
            seq![name.spec_bytes().len() as u8] + name.spec_bytes()
        } else {
            le2(0)
        },
        None => le2(0),
    }
}

/// The notice that a rival was assigned: the rival's session, two fixed
/// 16-bit ones, the coins and national points, the clan and the rival's
/// name.
pub fn build_assign_rival_packet(
    rival_sid: u32,
    coins: u32,
    loyalty: u32,
    clan_name: Option<&str>,
    rival_name: &str,
) -> (r: Packet)
    requires
        clan_name matches Some(n) ==> n.spec_bytes().len() <= u8::MAX,
        rival_name.spec_bytes().len() <= u8::MAX,
    ensures
        r.opcode == WIZ_PVP,
        r.data@ == seq![PVP_ASSIGN_RIVAL] + le4(rival_sid as int) + le2(1) + le2(1) + le4(coins as int)
            + le4(loyalty as int) + clan_field(clan_name) + seq![rival_name.spec_bytes().len() as u8]
            + rival_name.spec_bytes(),
{
    let mut pkt = Packet::new(WIZ_PVP);
    pkt.write_u8(PVP_ASSIGN_RIVAL);
    pkt.write_u32(rival_sid);
    pkt.write_u16(1);
    pkt.write_u16(1);
    pkt.write_u32(coins);
    pkt.write_u32(loyalty);
    match clan_name {
        Some(name) => {
            if name.as_bytes().len() > 0 {
                pkt.write_sbyte_string(name);
            } else {
                pkt.write_u16(0);
            }
        },
        None => {
            pkt.write_u16(0);
        },
    }
    pkt.write_sbyte_string(rival_name);
    assert(pkt.data@ =~= seq![PVP_ASSIGN_RIVAL] + le4(rival_sid as int) + le2(1) + le2(1) + le4(coins as int)
        + le4(loyalty as int) + clan_field(clan_name) + seq![rival_name.spec_bytes().len() as u8]
        + rival_name.spec_bytes());
    pkt
}

/// The notice that the rivalry ended.
pub fn build_remove_rival_packet() -> (r: Packet)
    ensures
        r.opcode == WIZ_PVP,
        r.data@ == seq![PVP_REMOVE_RIVAL],
{
    let mut pkt = Packet::new(WIZ_PVP);
    pkt.write_u8(PVP_REMOVE_RIVAL);
    assert(pkt.data@ =~= seq![PVP_REMOVE_RIVAL]);
    pkt
}

/// The anger gauge notice: the gauge (at most the maximum) and whether it
/// is full.
pub fn build_update_helmet_packet(gauge: u8) -> (r: Packet)
    ensures
        r.opcode == WIZ_PVP,
        ({
            let g = if gauge < MAX_ANGER_GAUGE {
                gauge
            } else {
                MAX_ANGER_GAUGE
            };
            r.data@ == seq![PVP_UPDATE_HELMET, g, if g >= MAX_ANGER_GAUGE {
                1u8
            } else {
                0u8
            }]
        }),
{
    let clamped = if gauge < MAX_ANGER_GAUGE {
        gauge
    } else {
        MAX_ANGER_GAUGE
    };
    let mut pkt = Packet::new(WIZ_PVP);
    pkt.write_u8(PVP_UPDATE_HELMET);
    pkt.write_u8(clamped);
    pkt.write_u8(if clamped >= MAX_ANGER_GAUGE { 1 } else { 0 });
    assert(pkt.data@ =~= seq![PVP_UPDATE_HELMET, clamped, if clamped >= MAX_ANGER_GAUGE {
        1u8
    } else {
        0u8
    }]);
    pkt
}

/// The notice that the anger gauge was reset.
pub fn build_reset_helmet_packet() -> (r: Packet)
    ensures
        r.opcode == WIZ_PVP,
        r.data@ == seq![PVP_RESET_HELMET],
{
    let mut pkt = Packet::new(WIZ_PVP);
    pkt.write_u8(PVP_RESET_HELMET);
    assert(pkt.data@ =~= seq![PVP_RESET_HELMET]);
    pkt
}

} // verus!
