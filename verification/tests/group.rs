use seq_backend_eql::group_follow::STRUCT_LEN;
use seq_backend_eql::group_roster::{REC_OFF, REC_STRIDE};
use seq_backend_eql::{
    parse_group_disband, parse_group_follow, parse_group_member_list, parse_group_roster,
    GroupDisbandError, GroupFollowError, GroupMemberListError, GroupRosterError,
};

#[test]
fn group_disband_rejects_short_payload() {
    assert!(parse_group_disband(&[0; 127]).is_err());
}

#[test]
fn parses_both_wire_sizes() {
    for len in [152usize, 168] {
        let mut buf = vec![0u8; len];
        buf[0..3].copy_from_slice(b"Bob");
        buf[64..68].copy_from_slice(b"Sam!");
        let g = parse_group_disband(&buf).unwrap();
        assert_eq!(g.yourname, "Bob");
        assert_eq!(g.membername, "Sam!");
    }
}

#[test]
fn group_disband_reports_the_needed_length() {
    assert_eq!(parse_group_disband(&[0; 10]), Err(GroupDisbandError::BadLength(128, 10)));
}

#[test]
fn group_follow_rejects_short_payload() {
    assert!(parse_group_follow(&[0; 127]).is_err());
}

#[test]
fn rejects_a_payload_that_only_reaches_the_level_field() {
    assert!(parse_group_follow(&[0xc8; STRUCT_LEN - 1]).is_err());
    assert!(parse_group_follow(&[0xc8; 128]).is_err());
}

#[test]
fn parses_name_at_offset_64_and_level() {
    let mut buf = [0u8; STRUCT_LEN];
    buf[64..67].copy_from_slice(b"Joe");
    buf[132..136].copy_from_slice(&57u32.to_le_bytes());
    let g = parse_group_follow(&buf).unwrap();
    assert_eq!(g.name, "Joe");
    assert_eq!(g.level, 57);
}

#[test]
fn group_follow_reports_the_needed_length() {
    assert_eq!(parse_group_follow(&[0; 5]), Err(GroupFollowError::BadLength(168, 5)));
}

fn frame(group: u32, count: u32, body: &[u8]) -> Vec<u8> {
    let mut v = Vec::new();
    v.extend_from_slice(&group.to_le_bytes());
    v.extend_from_slice(&count.to_le_bytes());
    v.extend_from_slice(body);
    v
}

#[test]
fn group_member_list_rejects_short() {
    assert!(parse_group_member_list(&[0u8; 7]).is_err());
}

#[test]
fn scans_names_between_nulls() {
    let mut body = Vec::new();
    body.extend_from_slice(b"Aello\0\0\0");
    body.extend_from_slice(b"Borin\0<\0");
    body.extend_from_slice(b"Xy\0");
    body.extend_from_slice(b"Cazic\0");
    let buf = frame(42, 3, &body);
    let out = parse_group_member_list(&buf).unwrap();
    assert_eq!(out.group_id, 42);
    assert_eq!(out.member_count, 3);
    assert_eq!(out.names, vec!["Aello", "Borin", "Cazic"]);
}

#[test]
fn empty_body_yields_no_names() {
    let buf = frame(1, 1, &[0u8; 16]);
    let out = parse_group_member_list(&buf).unwrap();
    assert!(out.names.is_empty());
}

#[test]
fn a_name_run_may_end_the_payload_unterminated() {
    let out = parse_group_member_list(&frame(1, 1, b"\0Gandalf_2")).unwrap();
    assert_eq!(out.names, vec!["Gandalf_2"]);
    assert_eq!(parse_group_member_list(&[0u8; 3]), Err(GroupMemberListError::Short(3)));
}

#[test]
fn a_lowercase_start_is_not_a_name() {
    let out = parse_group_member_list(&frame(1, 1, b"abcdef\0Abc\0")).unwrap();
    assert_eq!(out.names, vec!["Abc"]);
}

#[test]
fn solo_is_empty() {
    let mut b = [0u8; 20];
    b[4..8].copy_from_slice(&1u32.to_le_bytes());
    assert_eq!(parse_group_roster(&b).unwrap().members, Vec::<String>::new());
}

#[test]
fn reads_two_members_at_stride_44() {
    let mut b = vec![0u8; REC_OFF + 2 * REC_STRIDE];
    b[4..8].copy_from_slice(&2u32.to_le_bytes());
    b[REC_OFF..REC_OFF + 4].copy_from_slice(b"Hero");
    let s2 = REC_OFF + REC_STRIDE;
    b[s2..s2 + 5].copy_from_slice(b"Alice");
    assert_eq!(parse_group_roster(&b).unwrap().members, vec!["Hero", "Alice"]);
}

#[test]
fn group_roster_skips_leading_nuls_and_stops_at_the_payload_end() {
    let mut b = vec![0u8; REC_OFF + REC_STRIDE + 10];
    b[4..8].copy_from_slice(&6u32.to_le_bytes());
    b[REC_OFF + 3..REC_OFF + 6].copy_from_slice(b"Ann");
    let s2 = REC_OFF + REC_STRIDE;
    b[s2..s2 + 3].copy_from_slice(b"Bea");
    let r = parse_group_roster(&b).unwrap();
    assert_eq!(r.members, vec!["Ann", "Bea"]);
    assert_eq!(parse_group_roster(&[0u8; 11]), Err(GroupRosterError::Short(11)));
}
