# ko_game

Verified game-server logic for a Knight Online style server, written in
Verus. Each module holds the rules of one game feature as plain functions
whose `requires`/`ensures` contracts Verus proves: they take the state they
read as arguments (requests as bytes, characters, inventories, event state,
table rows) and return the decision, the new state and the reply packets.
Sending replies, the database and the game world are not part of this
crate.

## Layout

- `src/` — the verified library.
  - `world.rs`, `packet.rs`, `request.rs`, `seq_util.rs`, `dice.rs`:
    shared identifiers, inventory slots, the little-endian packet writer
    and reader, reading request fields with defaults, sequence helpers,
    and the random draw (the one call into `rand`).
  - Events: `dungeon_defence`, `forgotten_temple`, `cinderella`, `bifrost`,
    `chaos_stone`, `collection_race`, `arena`.
  - Character services: `class_change`, `clan_nts`, `character_seal`,
    `exp_seal`, `change_hair`, `ability`.
  - Items: `item_production`, `item_repair`, `item_remove`.
  - Social and accounts: `friend`, `daily_rank`, `edit_box`, `datasave`.
  - Notices: `achievement2`, `awakening`, `clan_premium`,
    `clanpoints_battle`, `concurrent_user`, `corpse`, `daily_quest`, `kiss`.
- `tests/` — unit tests run against the compiled library.
- `app/` — unverified glue: clocks, the random pick by clock time, and the
  prices and timers the game keeps in floating point.

Laws that span several functions are stated as public `proof fn lemma_*`
items next to the functions they speak of.
