//! Cinderella War sub-opcodes.

use vstd::prelude::*;

verus! {

/// Select or change class during the event.
pub const SELECT_CLASS: u8 = 0;

/// Change nation during the event.
pub const NATION_CHANGE: u8 = 1;

/// Join the event (sent by the server).
pub const JOIN_EVENT: u8 = 2;

/// The war phase starts (sent by the server).
pub const STARTING: u8 = 3;

/// Kill/death update (sent by the server).
pub const UPDATE_KDA: u8 = 4;

/// The event finished (sent by the server).
pub const FINISH: u8 = 5;

/// The request succeeded.
pub const SUCCESS: u8 = 6;

/// A cooldown is still running; the seconds left follow.
pub const TIME_WAIT: u8 = 7;

/// The class cannot be changed.
pub const NOT_CHANGE: u8 = 8;

/// The player already has that class.
pub const ALREADY_CLASS: u8 = 9;

/// The player already is of that nation.
pub const ALREADY_NATION: u8 = 10;

} // verus!
