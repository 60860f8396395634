//! Game-server logic for a Knight Online style server: the events (dungeon
//! defence rooms, the Forgotten Temple, Cinderella War, Bifrost, chaos
//! stones, the collection race, rivalries), character services (class
//! changes and resets, clan nation transfer, character sealing, the
//! experience seal, face and hair changes, the Hermetic Seal), items
//! (production, repair, destruction), the friend list, the daily rankings,
//! serial-code redemption, and the wire form of the packets these send.
//!
//! Every operation is a plain function over the state it reads: it returns
//! the decision, the new state and the reply packets, and leaves sending
//! and storing them to its caller.

pub mod seq_util;
pub mod dice;
pub mod world;
pub mod packet;
pub mod request;

pub mod dungeon_defence;
pub mod forgotten_temple;
pub mod cinderella;
pub mod bifrost;
pub mod chaos_stone;
pub mod collection_race;
pub mod arena;

pub mod class_change;
pub mod clan_nts;
pub mod character_seal;
pub mod exp_seal;
pub mod change_hair;
pub mod ability;

pub mod item_production;
pub mod item_repair;
pub mod item_remove;

pub mod friend;
pub mod daily_rank;
pub mod edit_box;
pub mod datasave;

pub mod achievement2;
pub mod awakening;
pub mod clan_premium;
pub mod clanpoints_battle;
pub mod concurrent_user;
pub mod corpse;
pub mod daily_quest;
pub mod kiss;
