use seq_backend_eql::{parse_npc_move_update, BitStream, NpcMoveUpdateError};

#[test]
fn npc_move_update_rejects_wrong_length() {
    assert!(parse_npc_move_update(&[0; 12]).is_err());
    assert!(parse_npc_move_update(&[0; 25]).is_err());
}

#[test]
fn read_uint_byte_aligned() {
    // 0x12 0x34 -> readUInt(16) is 0x1234 (big-endian).
    let mut s = BitStream::new(&[0x12, 0x34]);
    assert_eq!(s.read_uint(16), 0x1234);
}

#[test]
fn read_uint_sub_byte() {
    // 0xF0 -> readUInt(4) is 0x0F (top nibble first).
    let mut s = BitStream::new(&[0xF0]);
    assert_eq!(s.read_uint(4), 0xF);
    assert_eq!(s.read_uint(4), 0x0);
}

#[test]
fn read_int_sign_magnitude() {
    // sign=1, mag=5 in 4 bits (0b1101) -> readInt(4) = -5.
    let mut s = BitStream::new(&[0xD0]);
    assert_eq!(s.read_int(4), -5);
}

/// MSB-first writer mirroring the reader, for building layout fixtures.
fn put_bits(buf: &mut [u8], at: usize, count: usize, value: u32) {
    for i in 0..count {
        let bit = (value >> (count - 1 - i)) & 1;
        let pos = at + i;
        buf[pos >> 3] |= (bit as u8) << (7 - (pos & 7));
    }
}

fn fixture(y: i32, x: i32, z: i32, bearing: u32) -> [u8; 16] {
    let mut buf = [0u8; 16];
    put_bits(&mut buf, 0, 16, 0x4321);
    let mut put_coord = |at: usize, v: i32| {
        put_bits(&mut buf, at, 1, u32::from(v < 0));
        put_bits(&mut buf, at + 1, 18, v.unsigned_abs());
    };
    put_coord(54, y);
    put_coord(73, x);
    put_coord(92, z);
    put_bits(&mut buf, 111, 12, bearing);
    buf
}

#[test]
fn the_twelve_bit_angle_is_a_path_bearing_not_a_facing() {
    let r = parse_npc_move_update(&fixture(800, -2400, 16, 0x123)).unwrap();
    assert_eq!((r.x, r.y, r.z), (-300, 100, 2));
    assert_eq!(r.path_bearing, 0x123);
    assert_eq!(r.heading, 0);
}

#[test]
fn rejects_a_coordinate_outside_the_game_world() {
    assert_eq!(
        parse_npc_move_update(&fixture(200_000, 0, 0, 0)),
        Err(NpcMoveUpdateError::OutOfRange(25_000)),
    );
}

#[test]
fn parses_minimum_packet_no_optional_fields() {
    // 16+32+6+19+19+19+12 = 123 bits -> 16 bytes, the length floor.
    let mut buf = [0u8; 16];
    buf[0] = 0x43;
    buf[1] = 0x21;
    let r = parse_npc_move_update(&buf).unwrap();
    assert_eq!(r.spawn_id, 0x4321);
    assert_eq!(r.x, 0);
    assert_eq!(r.y, 0);
    assert_eq!(r.z, 0);
    assert_eq!(r.heading, 0);
    assert_eq!(r.path_bearing, 0);
    assert_eq!(r.delta_x, 0);
    assert!(!r.has_delta_x);
    assert!(!r.has_delta_y);
    assert!(!r.has_delta_z);
    assert!(!r.has_delta_heading);
    assert!(!r.has_animation);
}

#[test]
fn npc_optional_deltas_are_read_in_wire_order() {
    // Mask 0x3e: delta heading, animation, delta y, delta x, delta z, all
    // present; 24 bytes leave room for every optional field.
    let mut buf = [0u8; 24];
    put_bits(&mut buf, 0, 16, 7);
    put_bits(&mut buf, 48, 6, 0x3e);
    let mut at = 123;
    let mut put_sm = |bits: usize, v: i32| {
        put_bits(&mut buf, at, 1, u32::from(v < 0));
        put_bits(&mut buf, at + 1, bits - 1, v.unsigned_abs());
        at += bits;
    };
    put_sm(10, -9); // delta heading: -9 >> 2 = -3
    put_sm(10, 40); // animation: 40 >> 2 = 10
    put_sm(13, 100); // delta y: 25
    put_sm(13, -101); // delta x: floor(-101 / 4) = -26
    put_sm(13, 4095); // delta z: 1023
    let r = parse_npc_move_update(&buf).unwrap();
    assert_eq!(r.spawn_id, 7);
    assert!(r.has_delta_heading && r.has_animation);
    assert!(r.has_delta_x && r.has_delta_y && r.has_delta_z);
    assert_eq!(r.delta_heading, -3);
    assert_eq!(r.animation, 10);
    assert_eq!(r.delta_y, 25);
    assert_eq!(r.delta_x, -26);
    assert_eq!(r.delta_z, 1023);
}

#[test]
fn npc_short_packet_reads_missing_optional_fields_as_zero() {
    // 16 bytes leave 5 bits past the fixed block: a set mask bit reads 0.
    let mut buf = [0u8; 16];
    put_bits(&mut buf, 48, 6, 0x10);
    let r = parse_npc_move_update(&buf).unwrap();
    assert!(r.has_delta_x);
    assert_eq!(r.delta_x, 0);
}

#[test]
fn npc_negative_coordinate_rounds_down() {
    // -9 >> 3 is -2 (an arithmetic shift rounds toward negative infinity).
    let r = parse_npc_move_update(&fixture(-9, 0, 0, 0)).unwrap();
    assert_eq!(r.y, -2);
}
