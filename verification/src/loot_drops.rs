//! `OP_LootDrops`: the corpse loot window.
//!
//! ```text
//!   u16, u32 = 900, u32 corpseId@6, u32 count@10, NUL-terminated corpse name@14,
//!   then `count` item entries: field[2]@+8 = item icon id, and the name in the
//!   `\x12`-wrapped item link past its 197-byte hex header.
//! ```
//! Entries are read while the count lasts and a whole entry fits; the walk
//! stops at the first entry without a complete link.
use vstd::prelude::*;
use crate::links::{byte_units, item_id_from_link, link_id};
use crate::text::{lossy_string, utf8_lossy};
use crate::wire::{find_byte, rd_u32, scan_byte, u32_le};

verus! {

/// One item on the corpse.
#[derive(Debug, Clone, PartialEq, Eq)]
pub struct LootItem {
    pub name: String,
    pub icon: u32,
    pub item_id: u32,
}

/// A decoded loot window.
#[derive(Debug, Clone, PartialEq, Eq)]
pub struct LootDrops {
    pub corpse_id: u32,
    pub corpse_name: String,
    pub items: Vec<LootItem>,
}

/// Why a loot window did not decode.
#[derive(Debug, Clone, Copy, PartialEq, Eq, Structural)]
pub enum LootDropsError {
    /// Under 15 bytes; carries the length.
    BadLength(usize),
    /// The corpse name has no NUL.
    UnterminatedName,
}

/// Opening `\x12` of the entry at `p`.
pub open spec fn link_open(b: Seq<u8>, p: int) -> int {
    find_byte(b, p, 0x12)
}

/// Closing `\x12` of the entry at `p`.
pub open spec fn link_close(b: Seq<u8>, p: int) -> int {
    find_byte(b, link_open(b, p) + 1, 0x12)
}

/// The entry at `p` is whole: 12 bytes of fields and a complete link.
pub open spec fn entry_whole(b: Seq<u8>, p: int) -> bool {
    p + 12 <= b.len() && link_open(b, p) < b.len() && link_close(b, p) < b.len()
}

/// Offsets of the entries read from `p` with `k` of the count left.
pub open spec fn entry_starts(b: Seq<u8>, p: int, k: nat) -> Seq<int>
    decreases k,
{
    if k > 0 && 0 <= p && entry_whole(b, p) {
        seq![p] + entry_starts(b, link_close(b, p) + 1, (k - 1) as nat)
    } else {
        Seq::empty()
    }
}

/// The name in a link body: what follows the 197-byte header (empty when
/// the body is shorter).
pub open spec fn drop_name(body: Seq<u8>) -> Seq<char> {
    if body.len() >= 197 {
        utf8_lossy(body.skip(197))
    } else {
        utf8_lossy(Seq::empty())
    }
}

/// `it` is the entry at `p`.
pub open spec fn loot_item_matches(it: LootItem, b: Seq<u8>, p: int) -> bool {
    let body = b.subrange(link_open(b, p) + 1, link_close(b, p));
    &&& it.icon == u32_le(b, p + 8)
    &&& it.item_id == link_id(byte_units(body))
    &&& it.name@ == drop_name(body)
}

/// The corpse name's NUL.
pub open spec fn corpse_name_end(b: Seq<u8>) -> int {
    find_byte(b, 14, 0)
}

/// Decodes `OP_LootDrops`.
pub fn parse_loot_drops(bytes: &[u8]) -> (r: Result<LootDrops, LootDropsError>)
    ensures
        bytes@.len() < 15 ==> r == Err::<LootDrops, LootDropsError>(
            LootDropsError::BadLength(bytes@.len() as usize),
        ),
        bytes@.len() >= 15 && corpse_name_end(bytes@) == bytes@.len() ==> r == Err::<
            LootDrops,
            LootDropsError,
        >(LootDropsError::UnterminatedName),
        bytes@.len() >= 15 && corpse_name_end(bytes@) < bytes@.len() ==> (r matches Ok(d) && {
            let starts = entry_starts(
                bytes@,
                corpse_name_end(bytes@) + 1,
                u32_le(bytes@, 10) as nat,
            );
            &&& d.corpse_id == u32_le(bytes@, 6)
            &&& d.corpse_name@ == utf8_lossy(bytes@.subrange(14, corpse_name_end(bytes@)))
            &&& d.items@.len() == starts.len()
            &&& forall|i: int|
                0 <= i < starts.len() ==> loot_item_matches(#[trigger] d.items@[i], bytes@, starts[i])
        }),
{
    if bytes.len() < 15 {
        return Err(LootDropsError::BadLength(bytes.len()));
    }
    let corpse_id = rd_u32(bytes, 6);
    let count = rd_u32(bytes, 10);
    let nul = scan_byte(bytes, 14, 0);
    if nul == bytes.len() {
        return Err(LootDropsError::UnterminatedName);
    }
    let corpse_name = lossy_string(&bytes[14..nul]);
    let ghost p0 = nul + 1;
    let mut items: Vec<LootItem> = Vec::new();
    let mut pos = nul + 1;
    let mut left: u32 = count;
    let ghost mut done: Seq<int> = Seq::empty();
    while left > 0 && bytes.len() - pos >= 12
        invariant
            p0 <= pos <= bytes@.len(),
            items@.len() == done.len(),
            entry_starts(bytes@, p0, count as nat) == done + entry_starts(
                bytes@,
                pos as int,
                left as nat,
            ),
            forall|i: int|
                0 <= i < done.len() ==> loot_item_matches(#[trigger] items@[i], bytes@, done[i]),
        ensures
            entry_starts(bytes@, pos as int, left as nat) == Seq::<int>::empty(),
        decreases left,
    {
        let icon = rd_u32(bytes, pos + 8);
        let open = scan_byte(bytes, pos, 0x12);
        if open == bytes.len() {
            break;
        }
        let close = scan_byte(bytes, open + 1, 0x12);
        if close == bytes.len() {
            break;
        }
        let body = &bytes[open + 1..close];
        let item_id = item_id_from_link(body);
        let name = if body.len() >= 197 {
            lossy_string(&body[197..body.len()])
        } else {
            lossy_string(&body[0..0])
        };
        proof {
            if body@.len() >= 197 {
                assert(body@.subrange(197, body@.len() as int) =~= body@.skip(197));
            } else {
                assert(body@.subrange(0, 0) =~= Seq::<u8>::empty());
            }
            assert(entry_starts(bytes@, pos as int, left as nat) == seq![pos as int] + entry_starts(
                bytes@,
                close + 1,
                (left - 1) as nat,
            ));
            assert(done.push(pos as int) + entry_starts(bytes@, close + 1, (left - 1) as nat)
                =~= done + (seq![pos as int] + entry_starts(bytes@, close + 1, (left - 1) as nat)));
            done = done.push(pos as int);
        }
        items.push(LootItem { name, icon, item_id });
        pos = close + 1;
        left = left - 1;
    }
    assert(done + Seq::<int>::empty() =~= done);
    Ok(LootDrops { corpse_id, corpse_name, items })
}

} // verus!
