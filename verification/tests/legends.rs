use seq_backend_eql::{DecodeError, LoadoutSwapError};
use seq_backend_eql::{
    find_profile_spellbook, parse_buff_list, parse_consider, parse_loadout_swap,
    parse_player_profile, parse_spawn, parse_stat_sync, tail_of, BuffListEntry, SPELLBOOK_SLOTS,
};

#[test]
fn profile_reads_identity() {
    let mut b = [0u8; 34];
    b[21..25].copy_from_slice(&6u32.to_le_bytes());
    b[25..29].copy_from_slice(&5u32.to_le_bytes());
    b[33] = 42;
    let p = parse_player_profile(&b).unwrap();
    assert_eq!(p.race, 6);
    assert_eq!(p.class_, 5);
    assert_eq!(p.level, 42);
    assert_eq!(p.name, "");
}

#[test]
fn profile_reads_base_stats() {
    let mut b = vec![0u8; 990];
    for (i, v) in [11u32, 22, 33, 44, 55, 66, 77].iter().enumerate() {
        b[962 + 4 * i..966 + 4 * i].copy_from_slice(&v.to_le_bytes());
    }
    let p = parse_player_profile(&b).unwrap();
    assert_eq!((p.str_, p.sta, p.cha, p.dex, p.int_, p.agi, p.wis), (11, 22, 33, 44, 55, 66, 77));
}

#[test]
fn profile_locates_the_spellbook_by_signature() {
    let mut b = vec![0xAAu8; 2048];
    let book = b.len();
    for k in 0..SPELLBOOK_SLOTS {
        let (id, word): (u32, u32) =
            if k < 100 { (1000 + k as u32, (k % 60) as u32) } else { (0xffff_ffff, 0) };
        b.extend_from_slice(&id.to_le_bytes());
        b.extend_from_slice(&word.to_le_bytes());
    }
    assert_eq!(find_profile_spellbook(&b), Some(book));
    let p = parse_player_profile(&b).unwrap();
    assert_eq!(p.spell_book.len(), SPELLBOOK_SLOTS);
    assert_eq!(p.spell_book[0], 1000);
    assert_eq!(p.spell_book[99], 1099);
    assert_eq!(p.spell_book[100], -1);
}

#[test]
fn profile_without_a_spellbook_leaves_it_empty() {
    let p = parse_player_profile(&vec![0u8; 8000]).unwrap();
    assert!(p.spell_book.is_empty());
}

#[test]
fn profile_short_buffer_leaves_base_stats_zero() {
    let p = parse_player_profile(&vec![0u8; 989]).unwrap();
    assert_eq!((p.str_, p.sta, p.cha, p.dex, p.int_, p.agi, p.wis), (0, 0, 0, 0, 0, 0, 0));
}

fn profile_with_name_block(name: &str, last: &str) -> Vec<u8> {
    let mut b = vec![0u8; 34];
    b[20] = 1;
    b[21..25].copy_from_slice(&6u32.to_le_bytes());
    b[25..29].copy_from_slice(&5u32.to_le_bytes());
    b[29..33].copy_from_slice(&0b111u32.to_le_bytes());
    b[33] = 12;
    b.extend_from_slice(&[0u8; 200]);

    b.extend_from_slice(&64u32.to_le_bytes());
    let mut nbuf = [0u8; 64];
    nbuf[..name.len()].copy_from_slice(name.as_bytes());
    b.extend_from_slice(&nbuf);
    b.extend_from_slice(&32u32.to_le_bytes());
    let mut lbuf = [0u8; 32];
    lbuf[..last.len()].copy_from_slice(last.as_bytes());
    b.extend_from_slice(&lbuf);

    for v in [111u32, 222, 333, 444] {
        b.extend_from_slice(&v.to_le_bytes());
    }
    b.extend_from_slice(&[0u8; 4]);
    b.extend_from_slice(&0xFFu32.to_le_bytes());
    b.extend_from_slice(&[0u8; 4]);
    b.extend_from_slice(&1u32.to_le_bytes());
    b.push(100);
    b.extend_from_slice(&55u16.to_le_bytes());
    b.extend_from_slice(&0u16.to_le_bytes());
    b.extend_from_slice(&(-12.5f32).to_le_bytes());
    b.extend_from_slice(&34.5f32.to_le_bytes());
    b.extend_from_slice(&7.0f32.to_le_bytes());
    b.extend_from_slice(&90.0f32.to_le_bytes());
    b.extend_from_slice(&100u16.to_be_bytes());
    b.extend_from_slice(&0u16.to_be_bytes());
    b.extend_from_slice(&999u32.to_le_bytes());
    b.extend_from_slice(&1u32.to_le_bytes());
    b.extend_from_slice(&[0u8; 2]);
    for v in [10u32, 20, 30, 40] {
        b.extend_from_slice(&v.to_le_bytes());
    }
    for v in [50u32, 60, 70, 80] {
        b.extend_from_slice(&v.to_le_bytes());
    }
    b
}

#[test]
fn profile_anchor_scans_name_surname_and_tail() {
    let b = profile_with_name_block("Testchar", "Surname");
    let p = parse_player_profile(&b).unwrap();
    assert_eq!(p.gender, 1);
    assert_eq!(p.race, 6);
    assert_eq!(p.class_, 5);
    assert_eq!(p.level, 12);
    assert_eq!(p.name, "Testchar");
    assert_eq!(p.last_name, "Surname");
    assert_eq!(p.expansions, 0xFF);
    assert_eq!(p.languages, vec![100]);
    assert_eq!(p.zone_id, 55);
    assert_eq!(f32::from_bits(p.x_bits), 34.5);
    assert_eq!(f32::from_bits(p.y_bits), -12.5);
    assert_eq!(f32::from_bits(p.z_bits), 7.0);
    assert_eq!(f32::from_bits(p.heading_bits), 90.0);
    assert_eq!(p.stand_state, 100);
    assert_eq!(p.guild_id, 999);
    assert_eq!(p.guild_server_id, 1);
    assert_eq!(p.platinum, 0);
    assert_eq!(p.copper, 0);
}

#[test]
fn money_at_fixed_offsets() {
    let mut b = vec![0u8; 40000];
    let put = |b: &mut Vec<u8>, off: usize, v: u32| {
        b[off..off + 4].copy_from_slice(&v.to_le_bytes());
    };
    for (i, v) in [9275u32, 10, 25, 47].iter().enumerate() {
        put(&mut b, 33687 + i * 4, *v);
        put(&mut b, 36245 + i * 4, *v);
    }
    for (i, v) in [1234u32, 5, 3, 5].iter().enumerate() {
        put(&mut b, 36261 + i * 4, *v);
    }
    let p = parse_player_profile(&b).unwrap();
    assert_eq!((p.platinum, p.gold, p.silver, p.copper), (9275, 10, 25, 47));
    assert_eq!((p.platinum_bank, p.gold_bank, p.silver_bank, p.copper_bank), (1234, 5, 3, 5));
    assert_eq!((p.platinum_cursor, p.copper_cursor), (0, 0));
}

#[test]
fn empty_purse_leaves_bank_unread() {
    let b = vec![0u8; 40000];
    let p = parse_player_profile(&b).unwrap();
    assert_eq!((p.platinum, p.platinum_bank), (0, 0));
}

#[test]
fn profile_without_name_block_keeps_identity_only() {
    let mut b = vec![0u8; 500];
    b[21..25].copy_from_slice(&6u32.to_le_bytes());
    b[33] = 12;
    let p = parse_player_profile(&b).unwrap();
    assert_eq!(p.name, "");
    assert_eq!(p.last_name, "");
    assert_eq!(p.race, 6);
    assert_eq!(p.level, 12);
}

#[test]
fn profile_truncated_tail_still_yields_name() {
    let mut b = profile_with_name_block("Halfway", "");
    b.truncate(b.len() - 30);
    let p = parse_player_profile(&b).unwrap();
    assert_eq!(p.name, "Halfway");
}

#[test]
fn a_profile_under_34_bytes_is_short() {
    assert!(parse_player_profile(&[0u8; 33]).is_err());
}

fn pos19(game_units: i32) -> u32 {
    ((game_units * 8) as u32) & 0x7FFFF
}

#[allow(clippy::too_many_arguments)]
fn build_spawn(
    name: &str,
    id: u32,
    level: u8,
    cur_hp: u8,
    race: u32,
    deity: u32,
    class_: u32,
    z: i32,
    y: i32,
    x: i32,
    last: &str,
    title: &str,
    suffix: &str,
) -> Vec<u8> {
    let mut b = Vec::new();
    let text = |b: &mut Vec<u8>, s: &str| {
        b.extend_from_slice(s.as_bytes());
        b.push(0);
    };
    let u32le = |b: &mut Vec<u8>, v: u32| b.extend_from_slice(&v.to_le_bytes());
    let has_title = !title.is_empty();
    let has_suffix = !suffix.is_empty();
    text(&mut b, name);
    u32le(&mut b, id);
    b.push(level);
    b.extend_from_slice(&[0u8; 16]);
    b.push(1);
    u32le(&mut b, 0);
    b.extend_from_slice(&[0u8; 4]);
    b.push(u8::from(has_title) << 4 | u8::from(has_suffix) << 5);
    b.extend_from_slice(&[0u8; 8]);
    b.push(0);
    b.push(cur_hp);
    b.extend_from_slice(&[0u8; 37]);
    u32le(&mut b, race);
    b.push(0);
    u32le(&mut b, deity);
    u32le(&mut b, 0);
    u32le(&mut b, 0);
    u32le(&mut b, class_);
    u32le(&mut b, 0);
    b.extend_from_slice(&[0u8; 4]);
    text(&mut b, last);
    b.extend_from_slice(&[0u8; 2]);
    u32le(&mut b, 0);
    b.extend_from_slice(&[0u8; 49]);
    b.extend_from_slice(&[0u8; 60]);
    u32le(&mut b, 0x3FF | (pos19(y) << 10) | (0x7u32 << 29));
    u32le(&mut b, 0xFFFF_FFFF);
    u32le(&mut b, 0x3FF | (pos19(x) << 10) | (0x7u32 << 29));
    u32le(&mut b, 0xFFFF_FFFF);
    u32le(&mut b, pos19(z) | (0x1FFFu32 << 19));
    if has_title {
        text(&mut b, title);
    }
    if has_suffix {
        text(&mut b, suffix);
    }
    b.extend_from_slice(&[0u8; 8]);
    b.push(0);
    b.extend_from_slice(&[0u8; 70]);
    b
}

#[test]
fn spawn_full_walk_reads_all_fields() {
    let b = build_spawn("a guard", 4242, 55, 90, 14, 396, 3, 80, -15, 10, "", "Protector", "of Qeynos");
    let s = parse_spawn(&b).unwrap();
    assert_eq!(s.id, 4242);
    assert_eq!(s.name, "a guard");
    assert_eq!(s.level, 55);
    assert_eq!(s.cur_hp, 90);
    assert_eq!(s.max_hp, 100);
    assert_eq!(s.race, 14);
    assert_eq!(s.deity, 396);
    assert_eq!(s.class_, 3);
    assert_eq!(s.npc, 1);
    assert_eq!(s.x, 10);
    assert_eq!(s.y, -15);
    assert_eq!(s.z, 80);
    assert_eq!(s.heading, 0);
    assert_eq!(s.title, "Protector");
    assert_eq!(s.suffix, "of Qeynos");
}

#[test]
fn spawn_last_name_and_position_past_i16_window() {
    let b = build_spawn("Grarf", 7, 60, 100, 14, 0, 5, 12, -4700, 5200, "Ironforge", "", "");
    let s = parse_spawn(&b).unwrap();
    assert_eq!(s.y, -4700);
    assert_eq!(s.x, 5200);
    assert_eq!(s.last_name, "Ironforge");
    assert_eq!(s.title, "");
    assert_eq!(s.suffix, "");
}

#[test]
fn spawn_rejects_truncated() {
    let mut b = Vec::new();
    b.extend_from_slice(b"orc\0");
    b.extend_from_slice(&[0u8; 40]);
    assert!(parse_spawn(&b).is_err());
}

#[test]
fn consider_reads_self_target_faction() {
    let mut b = [0u8; 24];
    b[0..4].copy_from_slice(&27090u32.to_le_bytes());
    b[4..8].copy_from_slice(&11626u32.to_le_bytes());
    b[8..12].copy_from_slice(&4u32.to_le_bytes());
    let c = parse_consider(&b).unwrap();
    assert_eq!(c.player_id, 27090);
    assert_eq!(c.target_id, 11626);
    assert_eq!(c.faction, 4);
    assert_eq!(c.level, 0);
    assert!(parse_consider(&[0u8; 23]).is_err());
}

#[test]
fn stat_sync_narrow_hp_percent() {
    let mut b = [0u8; 6];
    b[0..4].copy_from_slice(&11744u32.to_le_bytes());
    b[4] = 0x02;
    b[5] = 73;
    let s = parse_stat_sync(&b).unwrap();
    assert_eq!(s.spawn_id, 11744);
    assert!(!s.wide);
    assert!(s.has_hp);
    assert_eq!(s.hp_cur, 73);
    assert_eq!(s.hp_max, 100);
    assert!(!s.has_mana && !s.has_end);
}

#[test]
fn stat_sync_wide_hp_mana() {
    let mut b = [0u8; 37];
    b[0..4].copy_from_slice(&42u32.to_le_bytes());
    b[4] = 0x07;
    b[5..13].copy_from_slice(&1500i64.to_le_bytes());
    b[13..21].copy_from_slice(&2000i64.to_le_bytes());
    b[21..29].copy_from_slice(&300i64.to_le_bytes());
    b[29..37].copy_from_slice(&450i64.to_le_bytes());
    let s = parse_stat_sync(&b).unwrap();
    assert!(s.wide);
    assert_eq!(s.spawn_id, 42);
    assert!(s.has_hp && s.hp_cur == 1500 && s.hp_max == 2000);
    assert!(s.has_mana && s.mana_cur == 300 && s.mana_max == 450);
    assert!(!s.has_end);
}

#[test]
fn stat_sync_wide_three_stats_with_tail() {
    let mut b = [0u8; 57];
    b[0..4].copy_from_slice(&7u32.to_le_bytes());
    b[4] = 0x0f;
    b[5..13].copy_from_slice(&10i64.to_le_bytes());
    b[13..21].copy_from_slice(&20i64.to_le_bytes());
    b[21..29].copy_from_slice(&30i64.to_le_bytes());
    b[29..37].copy_from_slice(&40i64.to_le_bytes());
    b[37..45].copy_from_slice(&50i64.to_le_bytes());
    b[45..53].copy_from_slice(&60i64.to_le_bytes());
    let s = parse_stat_sync(&b).unwrap();
    assert!(s.has_hp && s.hp_cur == 10 && s.hp_max == 20);
    assert!(s.has_mana && s.mana_cur == 30 && s.mana_max == 40);
    assert!(s.has_end && s.end_cur == 50 && s.end_max == 60);
}

#[test]
fn stat_sync_keepalive_narrow_over_100_and_canary() {
    let mut ka = [0u8; 5];
    ka[4] = 0x31;
    let s = parse_stat_sync(&ka).unwrap();
    assert!(!s.has_hp && !s.has_mana && !s.has_end);
    let mut hot = [0u8; 6];
    hot[4] = 0x02;
    hot[5] = 200;
    assert!(!parse_stat_sync(&hot).unwrap().has_hp);
    let mut bad = [0u8; 8];
    bad[4] = 0x02;
    assert!(parse_stat_sync(&bad).is_err());
    assert!(parse_stat_sync(&[0u8; 4]).is_err());
}

#[test]
fn buff_list_parses_records_and_permanents() {
    let mut b = Vec::new();
    b.extend_from_slice(&100u32.to_le_bytes());
    b.extend_from_slice(&0u32.to_le_bytes());
    b.push(1);
    b.push(2);
    b.extend_from_slice(&[0u8; 5]);
    b.extend_from_slice(&278u32.to_le_bytes());
    b.extend_from_slice(&1u32.to_le_bytes());
    b.extend_from_slice(&5i32.to_le_bytes());
    b.extend_from_slice(&0u32.to_le_bytes());
    b.push(0);
    b.extend_from_slice(&1u32.to_le_bytes());
    b.extend_from_slice(&515u32.to_le_bytes());
    b.extend_from_slice(&1u32.to_le_bytes());
    b.extend_from_slice(&(-1i32).to_le_bytes());
    b.extend_from_slice(&0u32.to_le_bytes());
    b.extend_from_slice(b"X\0");
    b.extend_from_slice(&7u16.to_le_bytes());

    let list = parse_buff_list(&b).unwrap();
    assert_eq!(list.spawn_id, 100);
    assert_eq!(list.entries.len(), 2);
    assert_eq!(
        list.entries[0],
        BuffListEntry { spell_id: 278, remaining_ticks: 5, slot: 1, caster: String::new() }
    );
    assert_eq!(
        list.entries[1],
        BuffListEntry { spell_id: 515, remaining_ticks: -1, slot: 7, caster: "X".into() }
    );
    assert!(parse_buff_list(&b[..b.len() - 1]).is_err());
    let mut extra = b.clone();
    extra.push(0xAA);
    assert!(parse_buff_list(&extra).is_err());
}

#[test]
fn a_short_payload_yields_no_tail_rather_than_panicking() {
    assert!(tail_of(&[]).is_empty());
    assert!(tail_of(&[0u8; 6]).is_empty());
}

#[test]
fn a_broadcast_has_an_empty_tail() {
    let mut p = vec![0u8; 64];
    p[5..7].copy_from_slice(&64u16.to_le_bytes());
    assert!(tail_of(&p).is_empty());
}

#[test]
fn a_self_variant_exposes_the_bytes_past_inner_len() {
    let mut p = vec![0u8; 100];
    p[5..7].copy_from_slice(&64u16.to_le_bytes());
    p[64] = 0xAB;
    let t = tail_of(&p);
    assert_eq!(t.len(), 36);
    assert_eq!(t[0], 0xAB);
}

#[test]
fn an_out_of_range_inner_len_is_refused() {
    let mut p = vec![0u8; 32];
    p[5..7].copy_from_slice(&9999u16.to_le_bytes());
    assert!(tail_of(&p).is_empty());
}

#[test]
fn a_loadout_swap_too_short_for_its_record_is_refused() {
    assert!(parse_loadout_swap(&[0u8; 4]).is_err());
}

fn loadout(record: &[u8], tail: &[u8]) -> Vec<u8> {
    let mut b = Vec::new();
    b.extend_from_slice(&4321u32.to_le_bytes());
    b.push(0);
    b.extend_from_slice(&((7 + record.len()) as u16).to_le_bytes());
    b.extend_from_slice(record);
    b.extend_from_slice(tail);
    b
}

#[test]
fn a_loadout_swap_surfaces_the_record_and_its_tail() {
    let rec = build_spawn("Hero", 9, 30, 100, 14, 0, 4, 0, 0, 0, "", "", "");
    let b = loadout(&rec, &[1, 2, 3]);
    let sw = parse_loadout_swap(&b).unwrap();
    assert_eq!(sw.spawn_id, 4321);
    assert_eq!(sw.level, 30);
    assert_eq!(sw.class_, 4);
    assert_eq!(sw.race, 14);
    assert_eq!(sw.record.name, "Hero");
    assert_eq!(sw.tail_len, 3);
    assert_eq!(sw.tail_len, tail_of(&b).len());
    let broadcast = loadout(&rec, &[]);
    assert_eq!(parse_loadout_swap(&broadcast).unwrap().tail_len, 0);
    assert!(tail_of(&broadcast).is_empty());
}

#[test]
fn loadout_swap_errors_name_their_cause() {
    assert!(matches!(parse_loadout_swap(&[0u8; 6]), Err(LoadoutSwapError::Short)));
    let mut bad = vec![0u8; 20];
    bad[5..7].copy_from_slice(&7u16.to_le_bytes());
    assert!(matches!(parse_loadout_swap(&bad), Err(LoadoutSwapError::BadInnerLen)));
    let unnamed = loadout(&[0u8; 10], &[]);
    assert!(matches!(
        parse_loadout_swap(&unnamed),
        Err(LoadoutSwapError::Record(DecodeError::Short(10)))
    ));
}

#[test]
fn cutting_a_profile_short_keeps_its_identity() {
    let full = profile_with_name_block("Keeper", "Of Things");
    let whole = parse_player_profile(&full).unwrap();
    let cut = parse_player_profile(&full[..40]).unwrap();
    assert_eq!((cut.gender, cut.race, cut.class_, cut.level), (whole.gender, whole.race, whole.class_, whole.level));
    assert_eq!(cut.name, "");
    assert_eq!(whole.name, "Keeper");
}
