//! `OP_ItemPacket`: every item the character owns, with its template data.
//!
//! ```text
//! header  u32                      NOT a record count
//! record  char serial[16] NUL      per-INSTANCE id, unique per record
//!         106 B fixed block        container id @21, location @25
//!         char name[] NUL          always at +123: the serial is fixed-width
//!         char lore_or_desc[] NUL  lore name; a container puts its description here
//!         field block              FIELD_* offsets from here
//! ```
//! Records are variable-length and the header carries no usable count, so
//! records are found by scanning for the serial signature, and the field block
//! is located from the end of the two strings, never from the record start.
//! The stat grid is 4-byte slots whose value is an `i16` two bytes in.
use vstd::prelude::*;
use crate::text::{latin1_chars, lossy_string, utf8_lossy};
use crate::wire::{find_byte, i16_le, rd_i16, rd_u32, scan_byte, u32_le};

verus! {

/// Item id, offset into the field block.
pub const FIELD_ITEM_ID: usize = 8;
/// Slot bitmask, offset into the field block.
pub const FIELD_SLOT_MASK: usize = 20;
/// Icon, offset into the field block.
pub const FIELD_ICON: usize = 28;
/// Bytes per stat-grid slot.
pub const SLOT_STRIDE: usize = 4;
/// Where a slot's `i16` value sits within the slot.
pub const SLOT_VALUE: usize = 2;
/// First resist slot.
pub const SLOT_RESISTS: usize = 8;
/// Number of resists.
pub const RESIST_COUNT: usize = 5;
/// First base-stat slot.
pub const SLOT_STATS: usize = 14;
/// Number of base stats.
pub const STAT_COUNT: usize = 7;
pub const SLOT_HP: usize = 21;
pub const SLOT_MANA: usize = 22;
pub const SLOT_ENDURANCE: usize = 23;
pub const SLOT_AC: usize = 24;
/// Highest slot read, so a truncation check covers the whole block.
pub const SLOT_MAX: usize = 24;
/// The name's fixed offset in a record.
pub const NAME_OFFSET: usize = 123;
/// Width of the serial.
pub const SERIAL_LEN: usize = 16;
/// Container id, record-relative.
pub const RECORD_CONTAINER: usize = 21;
/// Packed location word (low u16 slot, high u16 parent slot), record-relative.
pub const RECORD_LOCATION: usize = 25;

/// One owned item.
#[derive(Debug, Clone, PartialEq, Eq, Default)]
pub struct ItemTemplate {
    /// Per-instance serial; two copies of one item type differ here.
    pub serial: String,
    pub name: String,
    /// Usually the name again; a container carries its description here.
    pub lore_name: String,
    pub item_id: u32,
    pub icon: u32,
    /// Which container holds this item (where it IS).
    pub container_id: u32,
    /// Slot index within `container_id`.
    pub container_slot: u16,
    /// Parent bag's slot when inside a bag; `0xFFFF` = top-level.
    pub parent_slot: u16,
    /// Standard slot bitmask (where it COULD go); 0 = not equippable.
    pub slot_mask: u32,
    /// `[STR, STA, AGI, DEX, CHA, INT, WIS]`, base values.
    pub stats: Vec<i32>,
    /// Five resists, in slot order.
    pub resists: Vec<i32>,
    pub hp: i32,
    pub mana: i32,
    pub endurance: i32,
    pub ac: i32,
}

/// The decoded packet.
#[derive(Debug, Clone, PartialEq, Eq, Default)]
pub struct ItemSet {
    /// The leading u32; NOT the record count.
    pub header: u32,
    pub items: Vec<ItemTemplate>,
}

/// Why an item packet did not decode.
#[derive(Debug, Clone, Copy, PartialEq, Eq, Structural)]
pub enum ItemPacketError {
    /// Too short for the header.
    Short,
}

/// `[0-9A-Za-z]`.
pub open spec fn is_alnum(c: u8) -> bool {
    (0x30 <= c <= 0x39) || (0x41 <= c <= 0x5a) || (0x61 <= c <= 0x7a)
}

/// A serial starts at `o`: `"iGS"`, 16 alphanumerics in all, then a NUL.
pub open spec fn serial_at(b: Seq<u8>, o: int) -> bool {
    &&& 0 <= o
    &&& o + 17 <= b.len()
    &&& b[o] == 0x69 && b[o + 1] == 0x47 && b[o + 2] == 0x53
    &&& forall|k: int| o <= k < o + 16 ==> is_alnum(#[trigger] b[k])
    &&& b[o + 16] == 0
}

/// End (the NUL) of the name of the record at `lo`.
pub open spec fn name_end(b: Seq<u8>, lo: int) -> int {
    find_byte(b, lo + 123, 0)
}

/// End (the NUL) of the lore string of the record at `lo`.
pub open spec fn lore_end(b: Seq<u8>, lo: int) -> int {
    find_byte(b, name_end(b, lo) + 1, 0)
}

/// The record at `lo` decodes: a serial, a non-empty terminated name, a
/// terminated lore string, and a whole field block through the last slot.
pub open spec fn record_ok(b: Seq<u8>, lo: int) -> bool {
    &&& serial_at(b, lo)
    &&& lo + 123 < name_end(b, lo) < b.len()
    &&& lore_end(b, lo) < b.len()
    &&& lore_end(b, lo) + 1 + 100 <= b.len()
}

/// The value of stat slot `j` of the field block at `t`.
pub open spec fn slot_value(b: Seq<u8>, t: int, j: int) -> i32 {
    i16_le(b, t + 4 * j + 2) as i32
}

/// `it` is the record at `lo`, field by field.
pub open spec fn item_matches(it: ItemTemplate, b: Seq<u8>, lo: int) -> bool {
    let ne = name_end(b, lo);
    let le = lore_end(b, lo);
    let t = le + 1;
    let loc = u32_le(b, lo + 25);
    &&& it.serial@ == latin1_chars(b.subrange(lo, lo + 16))
    &&& it.name@ == utf8_lossy(b.subrange(lo + 123, ne))
    &&& it.lore_name@ == utf8_lossy(b.subrange(ne + 1, le))
    &&& it.item_id == u32_le(b, t + 8)
    &&& it.slot_mask == u32_le(b, t + 20)
    &&& it.icon == u32_le(b, t + 28)
    &&& it.container_id == u32_le(b, lo + 21)
    &&& it.container_slot == loc % 0x10000
    &&& it.parent_slot == loc / 0x10000
    &&& it.stats@ == Seq::new(7, |k: int| slot_value(b, t, 14 + k))
    &&& it.resists@ == Seq::new(5, |k: int| slot_value(b, t, 8 + k))
    &&& it.hp == slot_value(b, t, 21)
    &&& it.mana == slot_value(b, t, 22)
    &&& it.endurance == slot_value(b, t, 23)
    &&& it.ac == slot_value(b, t, 24)
}

/// Offsets below `n` at which a record decodes, in ascending order.
pub open spec fn decoded_starts(b: Seq<u8>, n: int) -> Seq<int>
    decreases n,
{
    if n <= 0 {
        Seq::empty()
    } else if record_ok(b, n - 1) {
        decoded_starts(b, n - 1).push(n - 1)
    } else {
        decoded_starts(b, n - 1)
    }
}

/// Whether a serial starts at `o`.
fn is_serial_at(b: &[u8], o: usize) -> (r: bool)
    requires
        o <= b@.len(),
    ensures
        r == serial_at(b@, o as int),
{
    if b.len() - o < 17 {
        return false;
    }
    if b[o] != 0x69 || b[o + 1] != 0x47 || b[o + 2] != 0x53 {
        return false;
    }
    let mut k: usize = 0;
    while k < 16
        invariant
            o + 17 <= b.len(),
            k <= 16,
            forall|j: int| o <= j < o + k ==> is_alnum(#[trigger] b@[j]),
        decreases 16 - k,
    {
        let c = b[o + k];
        if !((0x30 <= c && c <= 0x39) || (0x41 <= c && c <= 0x5a) || (0x61 <= c && c <= 0x7a)) {
            assert(!is_alnum(b@[o + k]));
            return false;
        }
        k = k + 1;
    }
    b[o + 16] == 0
}

/// The value of stat slot `j` of the field block at `t`.
fn slot(b: &[u8], t: usize, j: usize) -> (v: i32)
    requires
        j <= 24,
        t + 100 <= b.len(),
    ensures
        v == slot_value(b@, t as int, j as int),
{
    rd_i16(b, t + 4 * j + 2) as i32
}

/// `count` consecutive slots from slot `first`.
fn slots(b: &[u8], t: usize, first: usize, count: usize) -> (v: Vec<i32>)
    requires
        first + count <= 25,
        t + 100 <= b.len(),
    ensures
        v@ == Seq::new(count as nat, |k: int| slot_value(b@, t as int, first + k)),
{
    let mut v: Vec<i32> = Vec::new();
    let mut k: usize = 0;
    while k < count
        invariant
            first + count <= 25,
            t + 100 <= b.len(),
            k <= count,
            v@ == Seq::new(k as nat, |i: int| slot_value(b@, t as int, first + i)),
        decreases count - k,
    {
        v.push(slot(b, t, first + k));
        k = k + 1;
        assert(v@ =~= Seq::new(k as nat, |i: int| slot_value(b@, t as int, first + i)));
    }
    v
}

/// The record at `lo` when it decodes.
fn record(b: &[u8], lo: usize) -> (r: Option<ItemTemplate>)
    requires
        lo < b@.len(),
    ensures
        r is Some <==> record_ok(b@, lo as int),
        r matches Some(it) ==> item_matches(it, b@, lo as int) && it.name@.len() > 0,
{
    if !is_serial_at(b, lo) {
        return None;
    }
    if b.len() - lo <= 123 {
        return None;
    }
    let ne = scan_byte(b, lo + 123, 0);
    if ne == b.len() || ne == lo + 123 {
        return None;
    }
    let le = scan_byte(b, ne + 1, 0);
    if le == b.len() {
        return None;
    }
    let t = le + 1;
    if b.len() - t < 100 {
        return None;
    }
    proof {
        assert forall|k: int| 0 <= k < 16 implies #[trigger] b@.subrange(lo as int, lo + 16)[k] < 0x80 by {
            assert(is_alnum(b@[lo + k]));
        }
    }
    let serial = lossy_string(&b[lo..lo + 16]);
    let name = lossy_string(&b[lo + 123..ne]);
    let lore_name = lossy_string(&b[ne + 1..le]);
    let loc = rd_u32(b, lo + 25);
    Some(
        ItemTemplate {
            serial,
            name,
            lore_name,
            item_id: rd_u32(b, t + 8),
            icon: rd_u32(b, t + 28),
            container_id: rd_u32(b, lo + 21),
            container_slot: (loc % 0x10000) as u16,
            parent_slot: (loc / 0x10000) as u16,
            slot_mask: rd_u32(b, t + 20),
            stats: slots(b, t, 14, 7),
            resists: slots(b, t, 8, 5),
            hp: slot(b, t, 21),
            mana: slot(b, t, 22),
            endurance: slot(b, t, 23),
            ac: slot(b, t, 24),
        },
    )
}

/// Decodes `OP_ItemPacket`: the header word, then one item per offset at
/// which a complete record starts, in payload order. A serial with no name
/// (a reference, not a record) and a record clipped before its last slot are
/// skipped.
pub fn parse_item_packet(b: &[u8]) -> (r: Result<ItemSet, ItemPacketError>)
    ensures
        b@.len() < 4 <==> r is Err,
        r matches Ok(set) ==> {
            let starts = decoded_starts(b@, b@.len() as int);
            &&& set.header == u32_le(b@, 0)
            &&& set.items@.len() == starts.len()
            &&& forall|i: int|
                0 <= i < starts.len() ==> item_matches(#[trigger] set.items@[i], b@, starts[i])
            &&& forall|i: int| 0 <= i < set.items@.len() ==> (#[trigger] set.items@[i]).name@.len() > 0
        },
{
    if b.len() < 4 {
        return Err(ItemPacketError::Short);
    }
    let header = rd_u32(b, 0);
    let mut items: Vec<ItemTemplate> = Vec::new();
    let mut o: usize = 0;
    while o < b.len()
        invariant
            o <= b@.len(),
            items@.len() == decoded_starts(b@, o as int).len(),
            forall|i: int|
                0 <= i < items@.len() ==> item_matches(
                    #[trigger] items@[i],
                    b@,
                    decoded_starts(b@, o as int)[i],
                ),
            forall|i: int| 0 <= i < items@.len() ==> (#[trigger] items@[i]).name@.len() > 0,
        decreases b@.len() - o,
    {
        let rec = record(b, o);
        if let Some(it) = rec {
            items.push(it);
        }
        o = o + 1;
    }
    Ok(ItemSet { header, items })
}

/// Byte offset of the value of slot `j` in the field block at `tail`.
pub fn slot_offset(tail: usize, j: usize) -> (r: usize)
    requires
        tail + j * 4 + 2 <= usize::MAX,
    ensures
        r == tail + j * 4 + 2,
{
    tail + j * SLOT_STRIDE + SLOT_VALUE
}

/// An item's numbers are read from the field block that starts one byte past
/// the lore string's NUL (item id at byte 8, slot mask at 20, icon at 28,
/// then the stat grid); its container id and location word sit 21 and 25
/// bytes into the record (slot in the low half of the location, parent slot
/// in the high half). Grid slot `j` is the little-endian `i16` at byte
/// `4 * j + 2` of the grid. Resists are slots 8-12, stats slots 14-20, HP
/// slot 21, mana 22, endurance 23 and AC 24.
pub proof fn lemma_item_stat_grid(it: ItemTemplate, b: Seq<u8>, lo: int)
    requires
        item_matches(it, b, lo),
    ensures
        ({
            let t = lore_end(b, lo) + 1;
            &&& it.item_id == u32_le(b, t + 8)
            &&& it.slot_mask == u32_le(b, t + 20)
            &&& it.icon == u32_le(b, t + 28)
            &&& it.container_id == u32_le(b, lo + 21)
            &&& it.container_slot as int == u32_le(b, lo + 25) % 0x10000
            &&& it.parent_slot as int == u32_le(b, lo + 25) / 0x10000
            &&& it.hp == i16_le(b, t + 4 * 21 + 2) as i32
            &&& it.mana == i16_le(b, t + 4 * 22 + 2) as i32
            &&& it.endurance == i16_le(b, t + 4 * 23 + 2) as i32
            &&& it.ac == i16_le(b, t + 4 * 24 + 2) as i32
            &&& it.resists@.len() == 5
            &&& forall|k: int| 0 <= k < 5 ==> it.resists@[k] == i16_le(b, t + 4 * (8 + k) + 2) as i32
            &&& it.stats@.len() == 7
            &&& forall|k: int| 0 <= k < 7 ==> it.stats@[k] == i16_le(b, t + 4 * (14 + k) + 2) as i32
        }),
{
}

} // verus!
