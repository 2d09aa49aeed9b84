use seq_backend_eql::guild_expanded_info::{
    ACTION_RANK_NAME, OFF_GUILD_ID, OFF_RANK_INDEX, OFF_RANK_NAME, RANK_NAME_MAX,
};
use seq_backend_eql::guild_motd::{MESSAGE_OFF, SENDER_OFF};
use seq_backend_eql::{
    parse_expanded_guild_info, parse_guild_member_list, parse_guild_motd,
    parse_guilds_in_zone_list, parse_new_guild_in_zone, primary_class, GuildInZoneError,
    GuildMotdError, GuildRosterError,
};

// ---- roster ----

fn lp(buf: &mut Vec<u8>, s: &str) {
    buf.extend_from_slice(&(s.len() as u32).to_le_bytes());
    buf.extend_from_slice(s.as_bytes());
}

fn member(buf: &mut Vec<u8>, name: &str, level: u32, mask: u32, rank: u32, zone: u16) {
    lp(buf, name);
    buf.extend_from_slice(&level.to_le_bytes());
    buf.extend_from_slice(&0u32.to_le_bytes());
    buf.extend_from_slice(&mask.to_le_bytes());
    buf.extend_from_slice(&rank.to_le_bytes());
    buf.extend_from_slice(&0x6a5d_c783u32.to_le_bytes());
    buf.push(0);
    buf.push(0);
    buf.extend_from_slice(&0u32.to_le_bytes());
    buf.extend_from_slice(&0u32.to_le_bytes());
    buf.push(1);
    lp(buf, "");
    buf.extend_from_slice(&zone.to_le_bytes());
    buf.extend_from_slice(&[0u8; 4]);
}

fn roster(members: &[(&str, u32, u32, u32, u16)]) -> Vec<u8> {
    let mut b = Vec::new();
    lp(&mut b, "Self");
    b.extend_from_slice(&454u32.to_le_bytes());
    b.extend_from_slice(&13u32.to_le_bytes());
    b.extend_from_slice(&[0u8; 2]);
    b.extend_from_slice(&(members.len() as u32).to_le_bytes());
    for m in members {
        member(&mut b, m.0, m.1, m.2, m.3, m.4);
    }
    b
}

#[test]
fn two_member_roster_matches_the_captured_122_byte_shape() {
    let b = roster(&[("Aaaa", 24, 0x4006, 1, 50), ("Bbbbbb", 24, 0x0502, 2, 0)]);
    assert_eq!(b.len(), 122, "layout must reproduce the captured length");

    let r = parse_guild_member_list(&b).unwrap();
    assert_eq!(r.guild_id, 454);
    assert_eq!(r.members.len(), 2);
    assert_eq!(r.members[0].level, 24);
    assert_eq!(r.members[0].class_mask, 0x4006);
    assert_eq!(r.members[0].rank, 1);
    assert_eq!(r.members[0].zone_id, 50);
    assert_eq!(r.members[1].rank, 2);
    assert_eq!(r.members[1].zone_id, 0, "offline members carry no zone");
}

#[test]
fn multiclass_mask_yields_its_lowest_class() {
    assert_eq!(primary_class(0x4006), 1);
    assert_eq!(primary_class(0x0502), 1);
    assert_eq!(primary_class(0b1000), 3);
    assert_eq!(primary_class(0), 0);
}

#[test]
fn empty_roster_is_accepted() {
    let r = parse_guild_member_list(&roster(&[])).unwrap();
    assert!(r.members.is_empty());
    assert_eq!(r.guild_id, 454);
}

#[test]
fn variable_length_notes_keep_the_walk_aligned() {
    let mut b = Vec::new();
    lp(&mut b, "Self");
    b.extend_from_slice(&454u32.to_le_bytes());
    b.extend_from_slice(&13u32.to_le_bytes());
    b.extend_from_slice(&[0u8; 2]);
    b.extend_from_slice(&2u32.to_le_bytes());
    for (name, note) in [("Aaaa", "a longer public note"), ("Bb", "")] {
        lp(&mut b, name);
        b.extend_from_slice(&10u32.to_le_bytes());
        b.extend_from_slice(&0u32.to_le_bytes());
        b.extend_from_slice(&2u32.to_le_bytes());
        b.extend_from_slice(&0u32.to_le_bytes());
        b.extend_from_slice(&0u32.to_le_bytes());
        b.push(0);
        b.push(0);
        b.extend_from_slice(&0u32.to_le_bytes());
        b.extend_from_slice(&0u32.to_le_bytes());
        b.push(1);
        lp(&mut b, note);
        b.extend_from_slice(&0u16.to_le_bytes());
        b.extend_from_slice(&[0u8; 4]);
    }
    let r = parse_guild_member_list(&b).unwrap();
    assert_eq!(r.members.len(), 2);
    assert_eq!(r.members[0].public_note, "a longer public note");
    assert_eq!(r.members[1].public_note, "");
}

#[test]
fn a_short_record_fails_rather_than_returning_a_partial_roster() {
    let mut b = roster(&[("Aaaa", 24, 2, 0, 0)]);
    b.truncate(b.len() - 6);
    assert!(parse_guild_member_list(&b).is_err());
}

#[test]
fn trailing_bytes_fail_the_canary() {
    let mut b = roster(&[("Aaaa", 24, 2, 0, 0)]);
    b.extend_from_slice(&[0u8; 4]);
    assert!(matches!(parse_guild_member_list(&b), Err(GuildRosterError::CountMismatch(..))));
}

#[test]
fn absurd_length_prefix_is_rejected() {
    let mut b = Vec::new();
    b.extend_from_slice(&0xFFFF_FFFFu32.to_le_bytes());
    b.extend_from_slice(b"Self");
    assert!(matches!(parse_guild_member_list(&b), Err(GuildRosterError::BadLength(..))));
}

#[test]
fn roster_truncation_reports_the_failing_offset() {
    // The zone id of the only row starts 4 bytes before the cut: a u16 read
    // there runs past the end after the row's last 6 bytes are dropped.
    let full = roster(&[("Aaaa", 24, 2, 0, 0)]);
    let b = &full[..full.len() - 6];
    assert_eq!(
        parse_guild_member_list(b),
        Err(GuildRosterError::Truncated(full.len() - 6, full.len() - 6))
    );
}

#[test]
fn roster_names_and_fields_decode() {
    let r = parse_guild_member_list(&roster(&[("Zed", 60, 0x10, 2, 7)])).unwrap();
    assert_eq!(r.members[0].name, "Zed");
    assert_eq!(r.members[0].full_member, 1);
    assert_eq!(r.members[0].last_on, 0x6a5d_c783);
    assert_eq!(primary_class(r.members[0].class_mask), 4);
}

// ---- message of the day ----

fn motd_packet(sender: &str, message: &str) -> Vec<u8> {
    let mut b = vec![0u8; 656];
    let s = sender.as_bytes();
    b[SENDER_OFF..SENDER_OFF + s.len()].copy_from_slice(s);
    let m = message.as_bytes();
    b[MESSAGE_OFF..MESSAGE_OFF + m.len()].copy_from_slice(m);
    b
}

#[test]
fn empty_motd_is_the_captured_case() {
    let b = vec![0u8; 656];
    let m = parse_guild_motd(&b).unwrap();
    assert_eq!(m.message, "");
    assert_eq!(m.sender, "");
}

#[test]
fn reads_sender_and_message() {
    let b = motd_packet("Setter", "Raid at 8, be on time");
    let m = parse_guild_motd(&b).unwrap();
    assert_eq!(m.sender, "Setter");
    assert_eq!(m.message, "Raid at 8, be on time");
}

#[test]
fn stops_at_the_nul_not_the_buffer_end() {
    let mut b = motd_packet("A", "Hi");
    b[MESSAGE_OFF + 3] = b'X';
    assert_eq!(parse_guild_motd(&b).unwrap().message, "Hi");
}

#[test]
fn a_short_packet_is_rejected() {
    assert!(matches!(parse_guild_motd(&[0u8; 100]), Err(GuildMotdError::BadLength(140, 100))));
}

#[test]
fn a_message_without_a_nul_runs_to_the_end() {
    let mut b = vec![0u8; 143];
    b[140..143].copy_from_slice(b"abc");
    assert_eq!(parse_guild_motd(&b).unwrap().message, "abc");
}

// ---- expanded guild info ----

fn rank_packet(guild_id: u32, rank_index: u32, name: &str) -> Vec<u8> {
    let mut b = vec![0u8; 192];
    b[0..4].copy_from_slice(&ACTION_RANK_NAME.to_le_bytes());
    b[OFF_GUILD_ID..OFF_GUILD_ID + 4].copy_from_slice(&guild_id.to_le_bytes());
    b[OFF_RANK_INDEX..OFF_RANK_INDEX + 4].copy_from_slice(&rank_index.to_le_bytes());
    let n = name.len().min(RANK_NAME_MAX - 1);
    b[OFF_RANK_NAME..OFF_RANK_NAME + n].copy_from_slice(&name.as_bytes()[..n]);
    b
}

#[test]
fn decodes_rank_name() {
    let i = parse_expanded_guild_info(&rank_packet(454, 3, "Officer"));
    assert_eq!(i.action, ACTION_RANK_NAME);
    assert_eq!(i.guild_id, 454);
    assert_eq!(i.rank_index, 3);
    assert_eq!(i.rank_name, "Officer");
}

#[test]
fn non_rank_action_leaves_rank_fields_empty() {
    let mut b = vec![0u8; 4184];
    b[0..4].copy_from_slice(&1u32.to_le_bytes());
    b[OFF_GUILD_ID..OFF_GUILD_ID + 4].copy_from_slice(&454u32.to_le_bytes());
    let i = parse_expanded_guild_info(&b);
    assert_eq!(i.action, 1);
    assert_eq!(i.rank_index, 0);
    assert!(i.rank_name.is_empty());
}

#[test]
fn short_payload_does_not_panic() {
    assert_eq!(parse_expanded_guild_info(&[]).action, 0);
}

#[test]
fn a_rank_name_is_cut_at_its_field_width() {
    let mut b = rank_packet(1, 2, "");
    for k in 0..RANK_NAME_MAX {
        b[OFF_RANK_NAME + k] = b'A';
    }
    b[OFF_RANK_NAME + RANK_NAME_MAX] = b'B';
    let i = parse_expanded_guild_info(&b);
    assert_eq!(i.rank_name.len(), RANK_NAME_MAX);
    assert!(!i.rank_name.contains('B'));
}

// ---- guilds in zone ----

fn entry(buf: &mut Vec<u8>, id: u32, srv: u32, name: &str) {
    buf.extend_from_slice(&id.to_le_bytes());
    buf.extend_from_slice(&srv.to_le_bytes());
    buf.extend_from_slice(name.as_bytes());
    buf.push(0);
}

#[test]
fn new_guild_matches_the_captured_30_byte_shape() {
    let mut b = Vec::new();
    entry(&mut b, 454, 13, "Twenty One Chars Here");
    assert_eq!(b.len(), 30);
    let g = parse_new_guild_in_zone(&b).unwrap();
    assert_eq!(g.guild_id, 454);
    assert_eq!(g.server_id, 13);
    assert_eq!(g.name, "Twenty One Chars Here");
}

#[test]
fn empty_list_is_the_12_byte_case() {
    let mut b = Vec::new();
    b.extend_from_slice(&4u32.to_le_bytes());
    b.extend_from_slice(b"Name");
    b.extend_from_slice(&0u32.to_le_bytes());
    assert_eq!(b.len(), 12);
    assert_eq!(parse_guilds_in_zone_list(&b).unwrap(), vec![]);
}

#[test]
fn list_walks_variable_length_names() {
    let mut b = Vec::new();
    b.extend_from_slice(&4u32.to_le_bytes());
    b.extend_from_slice(b"Name");
    b.extend_from_slice(&3u32.to_le_bytes());
    entry(&mut b, 1, 13, "A");
    entry(&mut b, 22, 13, "Much Longer Guild Name");
    entry(&mut b, 333, 13, "Mid Length");

    let g = parse_guilds_in_zone_list(&b).unwrap();
    assert_eq!(g.len(), 3);
    assert_eq!(g[0].guild_id, 1);
    assert_eq!(g[1].name, "Much Longer Guild Name");
    assert_eq!(g[2].guild_id, 333);
    assert!(g.iter().all(|e| e.server_id == 13));
}

#[test]
fn truncated_entry_fails_rather_than_returning_a_partial_list() {
    let mut b = Vec::new();
    b.extend_from_slice(&4u32.to_le_bytes());
    b.extend_from_slice(b"Name");
    b.extend_from_slice(&2u32.to_le_bytes());
    entry(&mut b, 1, 13, "First");
    b.extend_from_slice(&2u32.to_le_bytes());
    assert!(matches!(parse_guilds_in_zone_list(&b), Err(GuildInZoneError::CountMismatch(2, 1))));
}

#[test]
fn unterminated_name_is_rejected() {
    let mut b = Vec::new();
    b.extend_from_slice(&454u32.to_le_bytes());
    b.extend_from_slice(&13u32.to_le_bytes());
    b.extend_from_slice(b"NoNulHere");
    assert!(parse_new_guild_in_zone(&b).is_err());
}

#[test]
fn absurd_name_len_is_rejected() {
    let mut b = Vec::new();
    b.extend_from_slice(&0xFFFF_FFFFu32.to_le_bytes());
    b.extend_from_slice(b"Name");
    assert!(matches!(parse_guilds_in_zone_list(&b), Err(GuildInZoneError::BadNameLen(..))));
}

#[test]
fn an_absurd_count_does_not_allocate() {
    let mut b = Vec::new();
    b.extend_from_slice(&4u32.to_le_bytes());
    b.extend_from_slice(b"Name");
    b.extend_from_slice(&0xFFFF_FFFFu32.to_le_bytes());
    b.extend_from_slice(&1u32.to_le_bytes());
    b.extend_from_slice(&13u32.to_le_bytes());
    b.extend_from_slice(b"Guild\0");
    assert!(parse_guilds_in_zone_list(&b).is_err());
}

#[test]
fn a_new_guild_payload_under_nine_bytes_is_bad_length() {
    assert_eq!(parse_new_guild_in_zone(&[0u8; 8]), Err(GuildInZoneError::BadLength(9, 8)));
    assert_eq!(parse_guilds_in_zone_list(&[0u8; 3]), Err(GuildInZoneError::BadLength(4, 3)));
}
