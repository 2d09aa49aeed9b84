use seq_backend_eql::group_roster::{REC_OFF, REC_STRIDE};
use seq_backend_eql::{
    clean_links, SelfTracker, SpawnRouting,
    parse_action_alt, parse_buff_list, parse_client_target, parse_consider, parse_door,
    parse_group_roster, parse_mana_change, parse_mob_update, parse_player_profile,
    parse_player_self_pos, parse_player_spawn_pos, parse_spawn_appearance, parse_start_cast,
    size_overrides,
};

fn table_size(name: &str) -> usize {
    size_overrides()
        .iter()
        .find(|(n, _)| *n == name)
        .map(|(_, s)| *s as usize)
        .unwrap()
}

#[test]
fn every_listed_name_has_one_size() {
    let table = size_overrides();
    for (n1, s1) in &table {
        for (n2, s2) in &table {
            if n1 == n2 {
                assert_eq!(s1, s2, "{n1}");
            }
        }
    }
    assert_eq!(table_size("timeOfDayStruct"), 8);
    assert_eq!(table_size("inspectDataStruct"), 1956);
}

#[test]
fn parsers_accept_a_payload_of_their_table_size() {
    assert!(parse_consider(&vec![0u8; table_size("considerStruct")]).is_ok());
    assert!(parse_start_cast(&vec![0u8; table_size("startCastStruct")]).is_ok());
    assert!(parse_player_spawn_pos(&vec![0u8; table_size("playerSpawnPosStruct")]).is_ok());
    assert!(parse_mob_update(&vec![0u8; table_size("spawnPositionUpdate")]).is_ok());
    assert!(parse_client_target(&vec![0u8; table_size("clientTargetStruct")]).is_ok());
    assert!(parse_mana_change(&vec![0u8; table_size("manaDecrementStruct")]).is_ok());
    assert!(parse_action_alt(&vec![0u8; table_size("actionAltStruct")]).is_ok());
    assert!(parse_player_self_pos(&vec![0u8; table_size("playerSelfPosStruct")]).is_ok());
    assert!(parse_door(&vec![0u8; table_size("doorStruct")]).is_ok());
    assert!(parse_spawn_appearance(&vec![0u8; table_size("spawnAppearanceStruct")]).is_ok());
    assert!(parse_start_cast(&vec![0u8; table_size("startCastStruct") + 1]).is_err());
}

#[test]
fn profile_aa_spent_wraps_and_skills_stop_at_one_hundred() {
    // Count-prefixed sections from byte 35 all empty, then 119 fixed bytes:
    // the AA count sits at 186.
    let mut b = vec![0u8; 186];
    b.extend_from_slice(&2u32.to_le_bytes());
    for (id, val) in [(10u32, 0xFFFF_FFFFu32), (11, 2)] {
        b.extend_from_slice(&id.to_le_bytes());
        b.extend_from_slice(&val.to_le_bytes());
        b.extend_from_slice(&0u32.to_le_bytes());
    }
    b.extend_from_slice(&150u32.to_le_bytes());
    for k in 0..150u32 {
        b.extend_from_slice(&k.to_le_bytes());
    }
    let p = parse_player_profile(&b).unwrap();
    assert_eq!(p.aa_ids, vec![10, 11]);
    assert_eq!(p.aa_values, vec![0xFFFF_FFFF, 2]);
    assert_eq!(p.aa_spent, 1);
    assert_eq!(p.skills.len(), 100);
    assert_eq!(p.skills[99], 99);
}

#[test]
fn buff_list_caster_is_latin1() {
    let mut b = Vec::new();
    b.extend_from_slice(&7u32.to_le_bytes());
    b.extend_from_slice(&0u32.to_le_bytes());
    b.push(1);
    b.push(1);
    b.extend_from_slice(&[0u8; 5]);
    b.extend_from_slice(&42u32.to_le_bytes());
    b.extend_from_slice(&1u32.to_le_bytes());
    b.extend_from_slice(&3i32.to_le_bytes());
    b.extend_from_slice(&0u32.to_le_bytes());
    b.extend_from_slice(&[0xC9, b'l', b'f', 0]);
    b.extend_from_slice(&2u16.to_le_bytes());
    let list = parse_buff_list(&b).unwrap();
    assert_eq!(list.entries[0].caster, "\u{C9}lf");
}

#[test]
fn group_roster_member_with_invalid_utf8_is_still_named() {
    let mut b = vec![0u8; REC_OFF + 2 * REC_STRIDE];
    b[4..8].copy_from_slice(&2u32.to_le_bytes());
    b[REC_OFF] = 0xFF;
    let s2 = REC_OFF + REC_STRIDE;
    b[s2..s2 + 3].copy_from_slice(b"Bea");
    let r = parse_group_roster(&b).unwrap();
    assert_eq!(r.members, vec!["\u{FFFD}", "Bea"]);
}

#[test]
fn cleaning_twice_is_cleaning_once() {
    for s in [
        "cast \u{12}63^3686^0^1^'Blood of Pain\u{12}! and \u{12}open",
        "a \u{12}b\u{12} c \u{12}d^e\u{12}",
        "plain",
    ] {
        let once = clean_links(s);
        assert_eq!(clean_links(&once), once);
    }
    assert_eq!(clean_links("a \u{12}x^'Name\u{12} b \u{12}tail"), "a Name b tail");
}

#[test]
fn buff_list_one_byte_off_either_way_fails() {
    let mut b = Vec::new();
    b.extend_from_slice(&9u32.to_le_bytes());
    b.extend_from_slice(&0u32.to_le_bytes());
    b.push(1);
    b.push(1);
    b.extend_from_slice(&[0u8; 5]);
    b.extend_from_slice(&5u32.to_le_bytes());
    b.extend_from_slice(&1u32.to_le_bytes());
    b.extend_from_slice(&4i32.to_le_bytes());
    b.extend_from_slice(&0u32.to_le_bytes());
    b.extend_from_slice(b"Zed\0");
    b.extend_from_slice(&3u16.to_le_bytes());
    let list = parse_buff_list(&b).unwrap();
    assert_eq!(list.entries.len(), b[9] as usize);
    assert!(parse_buff_list(&b[..b.len() - 1]).is_err());
    for x in [0u8, 1, 0xFF] {
        let mut longer = b.clone();
        longer.push(x);
        assert!(parse_buff_list(&longer).is_err());
    }
}

#[test]
fn a_twin_is_recorded_only_beside_a_near_adopted_id() {
    let mut t = SelfTracker::new();
    assert!(!t.is_self(0));
    assert_eq!(t.observe_spawn("Hero", "Hero", 100), SpawnRouting::AdoptSelf);
    assert_eq!(t.observe_spawn("Hero", "Hero", 103), SpawnRouting::SelfTwin);
    assert_eq!((t.self_id(), t.alt_id()), (100, 103));
    assert!(t.is_self(100) && t.is_self(103) && !t.is_self(0) && !t.is_self(101));
    assert_eq!(t.observe_spawn("Hero", "Hero", 5000), SpawnRouting::AdoptSelf);
    assert_eq!((t.self_id(), t.alt_id()), (5000, 0));
    let u = t.clone();
    assert_eq!((u.self_id(), u.alt_id()), (5000, 0));
}
