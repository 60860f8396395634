//! Bifrost (Beef Roast) event lifecycle.
//!
//! ```text
//! Inactive --start--> Active (monument attackable)
//! Active --monument destroyed--> Farming (winner enters, loser waits)
//! Active --timer expires, no kill--> Reset (draw)
//! Farming --farming end reached--> Reset (kick all, finish notice)
//! ```

use std::string::String;
use vstd::prelude::*;
use crate::packet::{Packet, le4};
use crate::packet::PacketReader;
use crate::request::{field_u8, take_u8};

verus! {

/// The Bifrost event opcode.
pub const WIZ_BIFROST: u8 = 0x7B;

/// Sub-opcode of the remaining-time packet.
pub const BIFROST_EVENT: u8 = 2;

/// Notice: the event started.
pub const NOTICE_START: u8 = 1;

/// Notice: the event ended in a draw.
pub const NOTICE_DRAW: u8 = 2;

/// Notice: a nation destroyed the monument.
pub const NOTICE_VICTORY: u8 = 3;

/// Notice: the farming phase ended.
pub const NOTICE_FINISH: u8 = 4;

/// Notice: the losing nation may enter.
pub const NOTICE_LOSER_SIGN: u8 = 5;

/// Default length of the monument phase, in minutes.
pub const DEFAULT_MONUMENT_MINUTES: u32 = 120;

/// The Bifrost event state and its countdown.
#[derive(Debug, Clone, Copy, PartialEq, Eq, Structural)]
pub struct BifrostState {
    pub is_active: bool,
    pub is_attackable: bool,
    pub is_monument_dead: bool,
    /// Nation that destroyed the monument (0 for none).
    pub winner_nation: u8,
    pub is_farming_play: bool,
    /// Unix time at which the farming phase ends (0 for unset).
    pub farming_end_time: u64,
    /// Unix time at which the losing nation may enter (0 for unset).
    pub loser_sign_time: u64,
    pub is_loser_sign: bool,
    /// Seconds left on the event countdown.
    pub remaining_secs: u32,
}

/// The inactive event.
pub open spec fn inactive_bifrost() -> BifrostState {
    BifrostState {
        is_active: false,
        is_attackable: false,
        is_monument_dead: false,
        winner_nation: 0,
        is_farming_play: false,
        farming_end_time: 0,
        loser_sign_time: 0,
        is_loser_sign: false,
        remaining_secs: 0,
    }
}

impl BifrostState {
    /// The inactive event.
    pub fn new() -> (r: BifrostState)
        ensures
            r == inactive_bifrost(),
    {
        BifrostState {
            is_active: false,
            is_attackable: false,
            is_monument_dead: false,
            winner_nation: 0,
            is_farming_play: false,
            farming_end_time: 0,
            loser_sign_time: 0,
            is_loser_sign: false,
            remaining_secs: 0,
        }
    }
}

/// Result of one second of the event.
#[derive(Debug, Clone, Copy, PartialEq, Eq, Structural)]
pub enum BifrostTickResult {
    /// Nothing happened.
    Idle,
    /// The monument phase ran out without a kill: the event is a draw and
    /// must be reset.
    Draw,
    /// The losing nation may now enter.
    LoserSignOpened,
    /// The farming phase is over: reset the event and kick everyone.
    FarmingExpired,
}

/// One second of the event at unix time `now`.
pub open spec fn tick_result(s: BifrostState, now: u64) -> BifrostTickResult {
    if !s.is_active {
        BifrostTickResult::Idle
    } else if !s.is_monument_dead && s.remaining_secs == 1 {
        BifrostTickResult::Draw
    } else if s.is_monument_dead && !s.is_loser_sign && s.loser_sign_time > 0 && now
        >= s.loser_sign_time {
        BifrostTickResult::LoserSignOpened
    } else if s.is_monument_dead && s.farming_end_time > 0 && now >= s.farming_end_time {
        BifrostTickResult::FarmingExpired
    } else {
        BifrostTickResult::Idle
    }
}

/// One second of the event at unix time `now`: the countdown goes down by
/// one (not below 0). An active event whose monument survives to the end
/// of the countdown is a draw; once the monument is destroyed, the losing
/// nation may enter from its sign time, and the farming phase expires at
/// its end time.
pub fn bifrost_tick(state: &mut BifrostState, now: u64) -> (r: BifrostTickResult)
    ensures
        r == tick_result(*old(state), now),
        *final(state) == (BifrostState {
            remaining_secs: if old(state).remaining_secs > 0 {
                (old(state).remaining_secs - 1) as u32
            } else {
                0
            },
            is_loser_sign: old(state).is_loser_sign || r == BifrostTickResult::LoserSignOpened,
            ..*old(state)
        }),
{
    let prev = state.remaining_secs;
    if prev > 0 {
        state.remaining_secs = prev - 1;
    }
    if !state.is_active {
        return BifrostTickResult::Idle;
    }
    if !state.is_monument_dead && prev > 0 && prev - 1 == 0 {
        return BifrostTickResult::Draw;
    }
    if state.is_monument_dead {
        if !state.is_loser_sign && state.loser_sign_time > 0 && now >= state.loser_sign_time {
            state.is_loser_sign = true;
            return BifrostTickResult::LoserSignOpened;
        }
        if state.farming_end_time > 0 && now >= state.farming_end_time {
            return BifrostTickResult::FarmingExpired;
        }
    }
    BifrostTickResult::Idle
}

/// The event just started with a monument phase of `secs` seconds.
pub open spec fn started_bifrost(secs: u32) -> BifrostState {
    BifrostState {
        is_active: true,
        is_attackable: true,
        is_monument_dead: false,
        winner_nation: 0,
        is_farming_play: false,
        farming_end_time: 0,
        loser_sign_time: 0,
        is_loser_sign: false,
        remaining_secs: secs,
    }
}

/// Start the monument phase for `monument_minutes` (120 by default).
/// Ignored while the event is active; returns whether it started, after
/// which the remaining time and the start notice are broadcast.
pub fn bifrost_start(state: &mut BifrostState, monument_minutes: Option<u32>) -> (r: bool)
    requires
        monument_minutes matches Some(m) ==> m * 60 <= u32::MAX,
    ensures
        r == !old(state).is_active,
        r ==> *final(state) == started_bifrost(
            (match monument_minutes {
                Some(m) => m,
                None => DEFAULT_MONUMENT_MINUTES,
            } * 60) as u32,
        ),
        !r ==> *final(state) == *old(state),
{
    if state.is_active {
        return false;
    }
    let minutes = match monument_minutes {
        Some(m) => m,
        None => DEFAULT_MONUMENT_MINUTES,
    };
    let secs = minutes * 60;
    state.is_active = true;
    state.is_attackable = true;
    state.is_monument_dead = false;
    state.winner_nation = 0;
    state.is_farming_play = false;
    state.farming_end_time = 0;
    state.loser_sign_time = 0;
    state.is_loser_sign = false;
    state.remaining_secs = secs;
    true
}

/// Reset the event to inactive.
pub fn bifrost_reset(state: &mut BifrostState)
    ensures
        *final(state) == inactive_bifrost(),
{
    *state = BifrostState::new();
}

/// Whether a player of `player_nation` entering the Bifrost zone must be
/// sent home.
pub open spec fn redirects(s: BifrostState, player_nation: u8) -> bool {
    !s.is_active || !s.is_monument_dead || !s.is_farming_play || (s.winner_nation != 0
        && s.winner_nation != player_nation && !s.is_loser_sign)
}

/// Whether a player of `player_nation` entering the Bifrost zone must be
/// sent home: always, except in the farming phase, where the winning
/// nation may enter and the losing one once its sign time came.
pub fn should_redirect_from_bifrost(state: &BifrostState, player_nation: u8) -> (r: bool)
    ensures
        r == redirects(*state, player_nation),
{
    if !state.is_active {
        return true;
    }
    if !state.is_monument_dead {
        return true;
    }
    if !state.is_farming_play {
        return true;
    }
    if state.winner_nation != 0 && state.winner_nation != player_nation && !state.is_loser_sign {
        return true;
    }
    false
}

/// The announcement of a notice type, `None` for an unknown type.
pub open spec fn notice_text(notice_type: u8, winner_nation: u8) -> Option<Seq<char>> {
    if notice_type == NOTICE_START {
        Some("[Announcement] Beef Roast event has started!"@)
    } else if notice_type == NOTICE_DRAW {
        Some("[Announcement] Beef Roast event ended in a draw!"@)
    } else if notice_type == NOTICE_VICTORY {
        Some(
            if winner_nation == 2 {
                "[Announcement] El Morad has destroyed the monument!"@
            } else {
                "[Announcement] Karus has destroyed the monument!"@
            },
        )
    } else if notice_type == NOTICE_FINISH {
        Some("[Announcement] Beef Roast farming phase has ended!"@)
    } else if notice_type == NOTICE_LOSER_SIGN {
        Some(
            if winner_nation == 2 {
                "[Announcement] Karus can now enter Bifrost!"@
            } else {
                "[Announcement] El Morad can now enter Bifrost!"@
            },
        )
    } else {
        None
    }
}

/// The announcement broadcast to the Bifrost and Ronark Land zones for a
/// notice type (the winner and loser are named after `state`), `None` for
/// an unknown type.
pub fn broadcast_beef_notice(state: &BifrostState, notice_type: u8) -> (r: Option<String>)
    ensures
        r is Some <==> notice_text(notice_type, state.winner_nation) is Some,
        r matches Some(t) ==> t@ == notice_text(notice_type, state.winner_nation)->0,
{
    if notice_type == NOTICE_START {
        Some("[Announcement] Beef Roast event has started!".to_owned())
    } else if notice_type == NOTICE_DRAW {
        Some("[Announcement] Beef Roast event ended in a draw!".to_owned())
    } else if notice_type == NOTICE_VICTORY {
        if state.winner_nation == 2 {
            Some("[Announcement] El Morad has destroyed the monument!".to_owned())
        } else {
            Some("[Announcement] Karus has destroyed the monument!".to_owned())
        }
    } else if notice_type == NOTICE_FINISH {
        Some("[Announcement] Beef Roast farming phase has ended!".to_owned())
    } else if notice_type == NOTICE_LOSER_SIGN {
        if state.winner_nation == 2 {
            Some("[Announcement] Karus can now enter Bifrost!".to_owned())
        } else {
            Some("[Announcement] El Morad can now enter Bifrost!".to_owned())
        }
    } else {
        None
    }
}

/// Nobody enters the zone of an event that is inactive or still in its
/// monument phase, and a freshly started event is in its monument phase.
pub proof fn lemma_no_entry_before_farming(s: BifrostState, secs: u32, nation: u8)
    requires
        !s.is_active || !s.is_monument_dead,
    ensures
        redirects(s, nation),
        redirects(started_bifrost(secs), nation),
        redirects(inactive_bifrost(), nation),
{
}

/// In the farming phase the winning nation always enters, and once the
/// losing nation's sign opened, everyone does.
pub proof fn lemma_farming_entry(s: BifrostState, nation: u8)
    requires
        s.is_active,
        s.is_monument_dead,
        s.is_farming_play,
    ensures
        nation == s.winner_nation ==> !redirects(s, nation),
        s.is_loser_sign ==> !redirects(s, nation),
{
}

/// An inactive event stays idle: a tick only runs its countdown down.
pub proof fn lemma_inactive_tick_idle(s: BifrostState, now: u64)
    requires
        !s.is_active,
    ensures
        tick_result(s, now) == BifrostTickResult::Idle,
{
}

/// The seconds left of the event, as sent to a player who asks and to the
/// event zones.
pub fn build_beef_time(remaining_secs: u32) -> (r: Packet)
    ensures
        r.opcode == WIZ_BIFROST,
        r.data@ == seq![BIFROST_EVENT] + le4(remaining_secs as int),
{
    let mut pkt = Packet::new(WIZ_BIFROST);
    pkt.write_u8(BIFROST_EVENT);
    pkt.write_u32(remaining_secs);
    assert(pkt.data@ =~= seq![BIFROST_EVENT] + le4(remaining_secs as int));
    pkt
}


/// The answer to a Beef Roast request: the seconds left when the request
/// asks for them (sub-opcode 2), nothing for any other sub-opcode (zero
/// when missing).
pub fn bifrost_reply(data: &[u8], remaining_secs: u32) -> (r: Option<Packet>)
    ensures
        field_u8(data@, 0).0 == BIFROST_EVENT ==> (r matches Some(p) && p.opcode == WIZ_BIFROST
            && p.data@ == seq![BIFROST_EVENT] + le4(remaining_secs as int)),
        field_u8(data@, 0).0 != BIFROST_EVENT ==> r is None,
{
    let mut rd = PacketReader::new(data);
    let sub = take_u8(&mut rd);
    if sub == BIFROST_EVENT {
        Some(build_beef_time(remaining_secs))
    } else {
        None
    }
}

} // verus!
