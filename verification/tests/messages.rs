use seq_backend_eql::buff::{CHANGE_APPLIED, CHANGE_FADED, FORM_COMPACT, FORM_FADE, FORM_INITIAL, FORM_UPDATE};
use seq_backend_eql::formatted_message::HEADER_LEN;
use seq_backend_eql::{is_player_channel, parse_buff, parse_formatted_message, BuffError, FormattedMessageError};

// ---- formatted message ----

fn pkt(fmt: u32, color: u32, args: &[&[u8]]) -> Vec<u8> {
    let mut b = vec![0u8; HEADER_LEN];
    b[5..9].copy_from_slice(&fmt.to_le_bytes());
    b[9..13].copy_from_slice(&color.to_le_bytes());
    for a in args {
        b.extend_from_slice(&(a.len() as u32).to_le_bytes());
        b.extend_from_slice(a);
    }
    b
}

#[test]
fn skips_a_leading_sender_name() {
    let plain = pkt(9072, 376, &[b"Lady Vox", b"197"]);
    let mut named = (6u32).to_le_bytes().to_vec();
    named.extend_from_slice(b"Sender");
    named.extend_from_slice(&plain[4..]);
    assert_eq!(parse_formatted_message(&named).unwrap(), parse_formatted_message(&plain).unwrap());
}

#[test]
fn rejects_a_name_length_past_the_payload() {
    let mut b = pkt(1, 2, &[b"a"]);
    b[0..4].copy_from_slice(&9999u32.to_le_bytes());
    assert!(matches!(
        parse_formatted_message(&b),
        Err(FormattedMessageError::BadNameLength(9999, _))
    ));
}

#[test]
fn formatted_message_rejects_short_payload() {
    assert_eq!(parse_formatted_message(&[0u8; 12]), Err(FormattedMessageError::BadLength(12)));
}

#[test]
fn header_only_no_args() {
    let m = parse_formatted_message(&pkt(15603, 334, &[b"", b"", b""])).unwrap();
    assert_eq!(m.format_id, 15603);
    assert_eq!(m.msg_color, 334);
    assert!(m.args.is_empty());
}

#[test]
fn combat_damage_args() {
    let link = b"\x1263^3686^0^1^'Blood of Pain\x12";
    let m = parse_formatted_message(&pkt(9072, 376, &[b"Lady Vox", b"197", link])).unwrap();
    assert_eq!(m.format_id, 9072);
    assert_eq!(m.args, vec!["Lady Vox", "197", "Blood of Pain"]);
}

#[test]
fn drops_trailing_empty_slots() {
    let m = parse_formatted_message(&pkt(1, 2, &[b"a", b"b", b"", b"", b""])).unwrap();
    assert_eq!(m.args, vec!["a", "b"]);
}

#[test]
fn an_overlong_arg_ends_the_walk() {
    let mut b = pkt(1, 2, &[b"ok"]);
    b.extend_from_slice(&100u32.to_le_bytes());
    b.extend_from_slice(b"short");
    let m = parse_formatted_message(&b).unwrap();
    assert_eq!(m.args, vec!["ok"]);
}

#[test]
fn args_are_read_as_latin1() {
    let m = parse_formatted_message(&pkt(1, 2, &[&[0xE9u8, b'a']])).unwrap();
    assert_eq!(m.args, vec!["\u{e9}a"]);
}

// ---- buff ----

fn rec(slot: u32, spell: u32, change: u32) -> [u8; 24] {
    let mut b = [0u8; 24];
    b[0..4].copy_from_slice(&slot.to_le_bytes());
    b[4..8].copy_from_slice(&spell.to_le_bytes());
    b[8..12].copy_from_slice(&1u32.to_le_bytes());
    b[12..16].copy_from_slice(&change.to_le_bytes());
    b
}

#[test]
fn parses_an_applied_record() {
    let m = parse_buff(&rec(0, 296, CHANGE_APPLIED)).unwrap();
    assert_eq!(m.form, FORM_COMPACT);
    assert_eq!(m.slot, 0);
    assert_eq!(m.spell_id, 296);
    assert_eq!(m.change_type, CHANGE_APPLIED);
}

#[test]
fn parses_a_faded_record() {
    let m = parse_buff(&rec(2, 231, CHANGE_FADED)).unwrap();
    assert_eq!(m.slot, 2);
    assert_eq!(m.spell_id, 231);
    assert_eq!(m.change_type, CHANGE_FADED);
}

#[test]
fn flags_scribe_slots_as_ignorable() {
    assert_eq!(parse_buff(&rec(331, 4010, 0)).unwrap().slot, 0xff);
    assert_eq!(parse_buff(&rec(15, 1, 0)).unwrap().slot, 0xff);
    assert_eq!(parse_buff(&rec(14, 1, 0)).unwrap().slot, 14);
}

#[test]
fn does_not_disturb_the_other_forms() {
    let mut b13 = [0u8; 13];
    b13[0..4].copy_from_slice(&12345u32.to_le_bytes());
    let f = parse_buff(&b13).unwrap();
    assert_eq!(f.form, FORM_FADE);
    assert_eq!(f.spawn_id, 12345);
    assert_eq!(f.change_type, 0);
}

#[test]
fn buff_rejects_short() {
    assert!(parse_buff(&[0u8; 7]).is_err());
}

#[test]
fn rejects_unrecognized_form() {
    assert!(matches!(parse_buff(&[0u8; 20]), Err(BuffError::BadForm(20))));
}

#[test]
fn fade_form_13b() {
    let mut b = [0u8; 13];
    b[0..4].copy_from_slice(&123u32.to_le_bytes());
    b[4..8].copy_from_slice(&5024u32.to_le_bytes());
    let out = parse_buff(&b).unwrap();
    assert_eq!(out.spawn_id, 123);
    assert_eq!(out.spell_id, 5024);
    assert_eq!(out.form, FORM_FADE);
}

#[test]
fn initial_form_30b_reads_slot() {
    let mut b = [0u8; 30];
    b[0..4].copy_from_slice(&7u32.to_le_bytes());
    b[4..8].copy_from_slice(&42u32.to_le_bytes());
    b[9] = 3;
    let out = parse_buff(&b).unwrap();
    assert_eq!(out.form, FORM_INITIAL);
    assert_eq!(out.slot, 3);
}

#[test]
fn update_form_reads_dur_ticks() {
    let mut b = [0u8; 34];
    b[0..4].copy_from_slice(&7u32.to_le_bytes());
    b[4..8].copy_from_slice(&42u32.to_le_bytes());
    b[15..19].copy_from_slice(&600u32.to_le_bytes());
    let out = parse_buff(&b).unwrap();
    assert_eq!(out.form, FORM_UPDATE);
    assert_eq!(out.dur_ticks, 600);
}

#[test]
fn buff_short_reports_its_length() {
    assert_eq!(parse_buff(&[0u8; 3]), Err(BuffError::Short(3)));
    assert_eq!(parse_buff(&[0u8; 33]), Err(BuffError::BadForm(33)));
    assert_eq!(parse_buff(&[0u8; 40]).unwrap().form, FORM_UPDATE);
}

// ---- chat channels ----

#[test]
fn player_channels_are_the_eight_speech_channels() {
    let yes: Vec<u32> = (0..20).filter(|&c| is_player_channel(c)).collect();
    assert_eq!(yes, vec![0, 2, 3, 4, 5, 7, 8, 15]);
}
