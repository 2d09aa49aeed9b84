//! Payload sizes that differ from the stock compiled structure sizes, or are
//! declared anyway so the size gate for every mapped opcode is owned here
//! and tracks these parsers' own layouts.
//!
//! Six mapped structures have no entry: `expUpdateStruct`, `skillIncStruct`,
//! `newCorpseStruct`, `remDropStruct`, `action2Struct` and `actionStruct`.
//! Their layouts are not defined in this crate, so their sizes are not known
//! here; until they are, those opcodes fall back to the stock gate.
use vstd::prelude::*;
use crate::short_records::CONSIDER_LEN;
use crate::{
    action_alt, client_target, mana_change, mob_update, player_self_pos, player_spawn_pos,
    spawn_appearance, spawn_door, start_cast,
};

verus! {

/// The size table: structure type name, authoritative payload size.
pub open spec fn size_table() -> Seq<(Seq<char>, u32)> {
    seq![
        ("considerStruct"@, 24u32),
        ("startCastStruct"@, 44u32),
        ("playerSpawnPosStruct"@, 28u32),
        ("spawnPositionUpdate"@, 18u32),
        ("clientTargetStruct"@, 4u32),
        ("manaDecrementStruct"@, 20u32),
        ("staminaStruct"@, 8u32),
        ("spawnIllusionStruct"@, 336u32),
        ("timeOfDayStruct"@, 8u32),
        ("inspectDataStruct"@, 1956u32),
        ("deleteSpawnStruct"@, 4u32),
        ("actionAltStruct"@, 88u32),
        ("simpleMessageStruct"@, 12u32),
        ("playerSelfPosStruct"@, 42u32),
        ("altExpUpdateStruct"@, 12u32),
        ("doorStruct"@, 132u32),
        ("timeOfDayStruct"@, 8u32),
        ("zoneServerInfoStruct"@, 130u32),
        ("spawnAppearance2Struct"@, 24u32),
        ("spawnAppearanceStruct"@, 24u32),
        ("inspectDataStruct"@, 1956u32),
        ("randomStruct"@, 76u32),
        ("tradeSpellBookSlotsStruct"@, 8u32),
        ("buffWindowSlotStruct"@, 12u32),
        ("beginCastStruct"@, 19u32),
        ("consentResponseStruct"@, 193u32),
        ("GuildMemberUpdate"@, 88u32),
        ("activateAbilityStruct"@, 4u32),
    ]
}

/// The table pairs `name` with `size`.
pub open spec fn table_has(name: Seq<char>, size: u32) -> bool {
    exists|i: int| 0 <= i < size_table().len() && size_table()[i] == (name, size)
}

/// A name the table lists more than once is listed with one size each time.
pub proof fn lemma_one_size_per_name(name: Seq<char>, a: u32, b: u32)
    requires
        table_has(name, a),
        table_has(name, b),
    ensures
        a == b,
{
    reveal_strlit("considerStruct");
    reveal_strlit("startCastStruct");
    reveal_strlit("playerSpawnPosStruct");
    reveal_strlit("spawnPositionUpdate");
    reveal_strlit("clientTargetStruct");
    reveal_strlit("manaDecrementStruct");
    reveal_strlit("staminaStruct");
    reveal_strlit("spawnIllusionStruct");
    reveal_strlit("timeOfDayStruct");
    reveal_strlit("inspectDataStruct");
    reveal_strlit("deleteSpawnStruct");
    reveal_strlit("actionAltStruct");
    reveal_strlit("simpleMessageStruct");
    reveal_strlit("playerSelfPosStruct");
    reveal_strlit("altExpUpdateStruct");
    reveal_strlit("doorStruct");
    reveal_strlit("zoneServerInfoStruct");
    reveal_strlit("spawnAppearance2Struct");
    reveal_strlit("spawnAppearanceStruct");
    reveal_strlit("randomStruct");
    reveal_strlit("tradeSpellBookSlotsStruct");
    reveal_strlit("buffWindowSlotStruct");
    reveal_strlit("beginCastStruct");
    reveal_strlit("consentResponseStruct");
    reveal_strlit("GuildMemberUpdate");
    reveal_strlit("activateAbilityStruct");
    let t = size_table();
    let i = choose|i: int| 0 <= i < t.len() && t[i] == (name, a);
    let j = choose|j: int| 0 <= j < t.len() && t[j] == (name, b);
    // Names with different sizes differ in length or in their first, second
    // or sixth character.
    assert(name.len() == t[i].0.len() && name.len() == t[j].0.len());
    assert(name[0] == t[i].0[0] && name[0] == t[j].0[0]);
    assert(name[1] == t[i].0[1] && name[1] == t[j].0[1]);
    assert(name[5] == t[i].0[5] && name[5] == t[j].0[5]);
    assert(i == 0 || i == 1 || i == 2 || i == 3 || i == 4 || i == 5 || i == 6 || i == 7 || i == 8
        || i == 9 || i == 10 || i == 11 || i == 12 || i == 13 || i == 14 || i == 15 || i == 16
        || i == 17 || i == 18 || i == 19 || i == 20 || i == 21 || i == 22 || i == 23 || i == 24
        || i == 25 || i == 26 || i == 27);
    assert(j == 0 || j == 1 || j == 2 || j == 3 || j == 4 || j == 5 || j == 6 || j == 7 || j == 8
        || j == 9 || j == 10 || j == 11 || j == 12 || j == 13 || j == 14 || j == 15 || j == 16
        || j == 17 || j == 18 || j == 19 || j == 20 || j == 21 || j == 22 || j == 23 || j == 24
        || j == 25 || j == 26 || j == 27);
}

/// The table gives each structure decoded here the payload length its
/// parser accepts: `parse_consider`, `parse_start_cast`,
/// `parse_player_spawn_pos`, `parse_mob_update`, `parse_client_target`,
/// `parse_mana_change`, `parse_action_alt`, `parse_spawn_door` and
/// `parse_spawn_appearance` take exactly that many bytes, and
/// `parse_player_self_pos` takes that many and up to four more.
pub proof fn lemma_parsers_accept_table_sizes()
    ensures
        table_has("considerStruct"@, CONSIDER_LEN as u32),
        table_has("startCastStruct"@, start_cast::PAYLOAD_LEN as u32),
        table_has("playerSpawnPosStruct"@, player_spawn_pos::PAYLOAD_LEN as u32),
        table_has("spawnPositionUpdate"@, mob_update::PAYLOAD_LEN as u32),
        table_has("clientTargetStruct"@, client_target::PAYLOAD_LEN as u32),
        table_has("manaDecrementStruct"@, mana_change::PAYLOAD_LEN as u32),
        table_has("actionAltStruct"@, action_alt::PAYLOAD_LEN as u32),
        table_has("playerSelfPosStruct"@, player_self_pos::PAYLOAD_LEN as u32),
        table_has("doorStruct"@, spawn_door::PAYLOAD_LEN as u32),
        table_has("spawnAppearanceStruct"@, spawn_appearance::PAYLOAD_LEN as u32),
{
    let t = size_table();
    assert(t[0] == ("considerStruct"@, CONSIDER_LEN as u32));
    assert(t[1] == ("startCastStruct"@, start_cast::PAYLOAD_LEN as u32));
    assert(t[2] == ("playerSpawnPosStruct"@, player_spawn_pos::PAYLOAD_LEN as u32));
    assert(t[3] == ("spawnPositionUpdate"@, mob_update::PAYLOAD_LEN as u32));
    assert(t[4] == ("clientTargetStruct"@, client_target::PAYLOAD_LEN as u32));
    assert(t[5] == ("manaDecrementStruct"@, mana_change::PAYLOAD_LEN as u32));
    assert(t[11] == ("actionAltStruct"@, action_alt::PAYLOAD_LEN as u32));
    assert(t[13] == ("playerSelfPosStruct"@, player_self_pos::PAYLOAD_LEN as u32));
    assert(t[15] == ("doorStruct"@, spawn_door::PAYLOAD_LEN as u32));
    assert(t[19] == ("spawnAppearanceStruct"@, spawn_appearance::PAYLOAD_LEN as u32));
}

/// The payload-size overrides, as `(structure name, size)` pairs in table
/// order (a name may appear twice, with the same size).
pub fn size_overrides() -> (r: Vec<(&'static str, u32)>)
    ensures
        r@.map_values(|e: (&str, u32)| (e.0@, e.1)) == size_table(),
{
    let mut v: Vec<(&'static str, u32)> = Vec::new();
    v.push(("considerStruct", CONSIDER_LEN as u32));
    v.push(("startCastStruct", start_cast::PAYLOAD_LEN as u32));
    v.push(("playerSpawnPosStruct", player_spawn_pos::PAYLOAD_LEN as u32));
    v.push(("spawnPositionUpdate", mob_update::PAYLOAD_LEN as u32));
    v.push(("clientTargetStruct", client_target::PAYLOAD_LEN as u32));
    v.push(("manaDecrementStruct", mana_change::PAYLOAD_LEN as u32));
    v.push(("staminaStruct", 8));
    v.push(("spawnIllusionStruct", 336));
    v.push(("timeOfDayStruct", 8));
    v.push(("inspectDataStruct", 1956));
    v.push(("deleteSpawnStruct", 4));
    v.push(("actionAltStruct", action_alt::PAYLOAD_LEN as u32));
    v.push(("simpleMessageStruct", 12));
    v.push(("playerSelfPosStruct", player_self_pos::PAYLOAD_LEN as u32));
    v.push(("altExpUpdateStruct", 12));
    v.push(("doorStruct", spawn_door::PAYLOAD_LEN as u32));
    v.push(("timeOfDayStruct", 8));
    v.push(("zoneServerInfoStruct", 130));
    v.push(("spawnAppearance2Struct", 24));
    v.push(("spawnAppearanceStruct", spawn_appearance::PAYLOAD_LEN as u32));
    v.push(("inspectDataStruct", 1956));
    v.push(("randomStruct", 76));
    v.push(("tradeSpellBookSlotsStruct", 8));
    v.push(("buffWindowSlotStruct", 12));
    v.push(("beginCastStruct", 19));
    v.push(("consentResponseStruct", 193));
    v.push(("GuildMemberUpdate", 88));
    v.push(("activateAbilityStruct", 4));
    assert(v@.map_values(|e: (&str, u32)| (e.0@, e.1)) =~= size_table());
    v
}

} // verus!
