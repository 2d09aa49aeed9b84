use seq_backend_eql::item_packet::{
    slot_offset, FIELD_ICON, FIELD_ITEM_ID, FIELD_SLOT_MASK, NAME_OFFSET, RECORD_CONTAINER,
    RECORD_LOCATION, RESIST_COUNT, SLOT_AC, SLOT_MANA, SLOT_MAX, SLOT_RESISTS, SLOT_STATS,
    SLOT_STRIDE, STAT_COUNT,
};
use seq_backend_eql::{parse_item_packet, ItemPacketError};

fn record(serial: &[u8; 16], name: &str, lore: &str, id: u32, slot: u32, icon: u32) -> Vec<u8> {
    record_in(serial, name, lore, id, slot, icon, 39)
}

fn record_at(serial: &[u8; 16], name: &str, container: u32, parent: u16, slot: u16) -> Vec<u8> {
    let mut r = record_in(serial, name, name, 1, 0, 0, container);
    let loc = ((parent as u32) << 16) | slot as u32;
    r[RECORD_LOCATION..RECORD_LOCATION + 4].copy_from_slice(&loc.to_le_bytes());
    r
}

fn record_in(
    serial: &[u8; 16],
    name: &str,
    lore: &str,
    id: u32,
    slot: u32,
    icon: u32,
    container: u32,
) -> Vec<u8> {
    let mut r = Vec::new();
    r.extend_from_slice(serial);
    r.push(0);
    r.resize(NAME_OFFSET, 0);
    r[RECORD_CONTAINER..RECORD_CONTAINER + 4].copy_from_slice(&container.to_le_bytes());
    r.extend_from_slice(name.as_bytes());
    r.push(0);
    r.extend_from_slice(lore.as_bytes());
    r.push(0);
    let tail = r.len();
    r.resize(tail + (SLOT_MAX + 4) * SLOT_STRIDE, 0);
    r[tail + FIELD_ITEM_ID..tail + FIELD_ITEM_ID + 4].copy_from_slice(&id.to_le_bytes());
    r[tail + FIELD_SLOT_MASK..tail + FIELD_SLOT_MASK + 4].copy_from_slice(&slot.to_le_bytes());
    r[tail + FIELD_ICON..tail + FIELD_ICON + 4].copy_from_slice(&icon.to_le_bytes());
    let o = slot_offset(tail, SLOT_STATS);
    r[o..o + 2].copy_from_slice(&(-5i16).to_le_bytes());
    r
}

#[test]
fn parses_two_records_and_keeps_them_apart() {
    let mut b = 167u32.to_le_bytes().to_vec();
    b.extend(record(b"iGS000e0002S4000", "Lightweight Bag", "Holds Giant items", 177750, 0, 884));
    b.extend(record(b"iGS000e0002i4G00", "Apothic Crown", "Apothic Crown", 1239, 4, 523));

    let set = parse_item_packet(&b).unwrap();
    assert_eq!(set.header, 167);
    assert_eq!(set.items.len(), 2);

    let bag = &set.items[0];
    assert_eq!(bag.name, "Lightweight Bag");
    assert_eq!(bag.lore_name, "Holds Giant items");
    assert_eq!(bag.item_id, 177750);
    assert_eq!(bag.icon, 884);
    assert_eq!(bag.slot_mask, 0, "a container is not equippable");

    let crown = &set.items[1];
    assert_eq!(crown.item_id, 1239);
    assert_eq!(crown.slot_mask, 4, "head");
    assert_eq!(crown.serial, "iGS000e0002i4G00");
    assert_eq!(crown.container_id, 39, "equipment key ring");
    assert_eq!(crown.stats.len(), STAT_COUNT);
    assert_eq!(crown.resists.len(), RESIST_COUNT);
}

#[test]
fn location_splits_into_parent_and_slot() {
    let mut b = 1u32.to_le_bytes().to_vec();
    b.extend(record_at(b"iGS000e0000000a0", "Worn", 0, 0xFFFF, 5));
    b.extend(record_at(b"iGS000e0000000b0", "InBag", 0, 19, 24));
    b.extend(record_at(b"iGS000e0000000c0", "Ring", 39, 0xFFFF, 5));

    let set = parse_item_packet(&b).unwrap();
    let g = |n: &str| set.items.iter().find(|i| i.name == n).unwrap();

    assert_eq!((g("Worn").parent_slot, g("Worn").container_slot), (0xFFFF, 5));
    assert_eq!((g("InBag").parent_slot, g("InBag").container_slot), (19, 24));
    assert_eq!(g("Ring").container_id, 39);
    assert_eq!(g("Ring").container_slot, g("Worn").container_slot);
}

#[test]
fn field_block_follows_the_strings_not_the_record() {
    let mut b = 0u32.to_le_bytes().to_vec();
    b.extend(record(b"iGS000e0002S4000", "Ax", "Ax", 42, 8192, 100));
    b.extend(record(
        b"iGS000e0002i4G00",
        "A Very Much Longer Item Name Indeed",
        "A Very Much Longer Item Name Indeed",
        43,
        8192,
        101,
    ));
    let set = parse_item_packet(&b).unwrap();
    assert_eq!(set.items.len(), 2);
    assert_eq!(set.items[0].item_id, 42);
    assert_eq!(set.items[1].item_id, 43, "long name must not shift the fields");
}

#[test]
fn stats_are_signed() {
    let mut b = 0u32.to_le_bytes().to_vec();
    b.extend(record(b"iGS000e0002S4000", "White Satin Gloves", "x", 1, 4096, 1));
    let set = parse_item_packet(&b).unwrap();
    assert_eq!(set.items[0].stats[0], -5, "STR is signed");
}

#[test]
fn a_truncated_record_is_skipped_not_zero_filled() {
    let mut b = 0u32.to_le_bytes().to_vec();
    let r = record(b"iGS000e0002S4000", "Cut Short", "x", 7, 4, 9);
    b.extend(&r[..r.len() - 40]);
    assert!(parse_item_packet(&b).unwrap().items.is_empty());
}

#[test]
fn slots_map_to_the_named_fields() {
    let mut r = record(b"iGS000e0002S4000", "Loam Encrusted Cloak", "x", 1646, 256, 660);
    let tail = r.len() - (SLOT_MAX + 4) * SLOT_STRIDE;
    let mut put = |j: usize, v: i16| {
        let o = slot_offset(tail, j);
        r[o..o + 2].copy_from_slice(&v.to_le_bytes());
    };
    for k in 0..RESIST_COUNT {
        put(SLOT_RESISTS + k, 3);
    }
    put(SLOT_STATS, 2);
    put(SLOT_STATS + 2, 8);
    put(SLOT_STATS + 5, 1);
    put(SLOT_MANA, 5);
    put(SLOT_AC, 5);

    let mut b = 0u32.to_le_bytes().to_vec();
    b.extend(r);
    let set = parse_item_packet(&b).unwrap();
    let it = &set.items[0];

    assert_eq!(it.stats, vec![2, 0, 8, 0, 0, 1, 0], "STR STA AGI DEX CHA INT WIS");
    assert_eq!(it.resists, vec![3; RESIST_COUNT]);
    assert_eq!(it.ac, 5);
    assert_eq!(it.mana, 5);
    assert_eq!(it.hp, 0, "the cloak has none");
    assert_eq!(it.endurance, 0);
}

#[test]
fn a_slot_value_is_an_i16_two_bytes_in() {
    let mut r = record(b"iGS000e0002S4000", "X", "x", 1, 0, 1);
    let tail = r.len() - (SLOT_MAX + 4) * SLOT_STRIDE;
    let o = slot_offset(tail, SLOT_AC);
    r[o..o + 2].copy_from_slice(&10i16.to_le_bytes());
    assert_eq!(&r[o - 2..o], &[0, 0]);

    let mut b = 0u32.to_le_bytes().to_vec();
    b.extend(r);
    assert_eq!(parse_item_packet(&b).unwrap().items[0].ac, 10);
}

#[test]
fn an_empty_payload_is_an_error_not_a_panic() {
    assert_eq!(parse_item_packet(&[]).unwrap_err(), ItemPacketError::Short);
}

#[test]
fn a_serial_without_a_name_is_a_reference_not_a_record() {
    let mut b = 0u32.to_le_bytes().to_vec();
    // A bare reference: serial, NUL, then nothing named at the name offset.
    b.extend_from_slice(b"iGS000e0002S4000\0");
    b.resize(4 + NAME_OFFSET + 8, 0);
    b.extend(record(b"iGS000e0002i4G00", "Real", "Real", 5, 0, 1));
    let set = parse_item_packet(&b).unwrap();
    assert_eq!(set.items.len(), 1);
    assert_eq!(set.items[0].name, "Real");
}

#[test]
fn a_serial_with_a_non_alphanumeric_byte_is_not_a_record_start() {
    let mut b = 0u32.to_le_bytes().to_vec();
    b.extend(record(b"iGS000e0002S4-00", "Dash", "Dash", 5, 0, 1));
    assert!(parse_item_packet(&b).unwrap().items.is_empty());
}
