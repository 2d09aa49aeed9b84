# seq-backend-eql

Packet decoders for the EverQuest Legends wire, written in Verus. Every
parser is a total function from a payload byte slice to a typed record or a
typed error; its contract pins the result to the payload bytes, so a decoder
never panics and never returns a value the wire does not hold.

Layout:

- `src/wire.rs`, `src/text.rs` — little-endian reads, bit fields, NUL-terminated
  and latin-1 text, and the spec functions the contracts are written in.
- `src/links.rs` — `\x12`-wrapped item and spell links.
- one module per opcode (`stat_sync.rs`, `spawn.rs`, `player_profile.rs`,
  `item_packet.rs`, `guild_roster.rs`, `npc_move_update.rs`, ...).
- `src/self_track.rs` — the stateful tracker that decides which spawn id is
  the local player, with its laws stated as proof functions.
- `src/size_gate.rs` — the payload sizes the host's size gate uses. The six
  structures whose layouts this crate does not define (`expUpdateStruct`,
  `skillIncStruct`, `newCorpseStruct`, `remDropStruct`, `action2Struct`,
  `actionStruct`) have no entry yet.
- `app/lib.rs` — the C++ bridge: flattens each decoded record into a shared
  struct and turns the position bit patterns into floats.

The tests under `tests/` exercise the decoders on concrete payloads.
