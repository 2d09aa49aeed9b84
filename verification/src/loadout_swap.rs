//! `OP_LoadoutSwap`: a player switched loadouts (the Legends multiclass
//! class/level change).
//!
//! Header: `u32 spawnId | u8 | u16 innerLen | <record> | <inventory tail>`.
//! `innerLen` covers the 7-byte header plus the embedded record, which has
//! the `OP_ZoneEntry` spawn layout; a broadcast has no tail, a self swap
//! carries a serialized inventory after `innerLen`.
use vstd::prelude::*;
use crate::decode_error::DecodeError;
use crate::spawn::{parse_spawn, spawn_decodes, spawn_error, spawn_matches, ZoneSpawn};
use crate::wire::{rd_u16, rd_u32, u16_le, u32_le};

verus! {

/// A decoded loadout swap.
pub struct LoadoutSwap {
    /// The whole embedded spawn record (the swap is a delete-then-re-add).
    pub record: ZoneSpawn,
    /// Header spawn id of the player who swapped.
    pub spawn_id: u32,
    pub level: u8,
    pub class_: u32,
    pub race: u32,
    /// Length of the inventory tail past `innerLen`; 0 on a broadcast.
    pub tail_len: usize,
}

/// Why a loadout swap did not decode.
#[derive(Debug)]
pub enum LoadoutSwapError {
    /// Too short to hold the 7-byte header.
    Short,
    /// `innerLen` is below 8 or runs past the packet.
    BadInnerLen,
    /// The embedded spawn record failed to parse.
    Record(DecodeError),
}

/// The `innerLen` header field.
pub open spec fn inner_len(s: Seq<u8>) -> int {
    u16_le(s, 5) as int
}

/// `innerLen` covers at least the header plus one byte and fits in the packet.
pub open spec fn inner_len_ok(s: Seq<u8>) -> bool {
    8 <= inner_len(s) <= s.len()
}

/// The embedded spawn record: `data[7..innerLen]`.
pub open spec fn loadout_record(s: Seq<u8>) -> Seq<u8> {
    s.subrange(7, inner_len(s))
}

/// The inventory tail: the bytes past `innerLen`, or nothing when the header
/// is short or `innerLen` is out of range.
pub open spec fn loadout_tail(s: Seq<u8>) -> Seq<u8> {
    if s.len() < 7 || !inner_len_ok(s) {
        Seq::empty()
    } else {
        s.skip(inner_len(s))
    }
}

/// The serialized inventory tail, borrowed from `data`.
pub fn tail_of(data: &[u8]) -> (r: &[u8])
    ensures
        r@ == loadout_tail(data@),
{
    if data.len() < 7 {
        return &data[0..0];
    }
    let inner = rd_u16(data, 5) as usize;
    if inner < 8 || inner > data.len() {
        return &data[0..0];
    }
    &data[inner..data.len()]
}

/// Decodes `OP_LoadoutSwap`; the record is `data[7..innerLen]`.
pub fn parse_loadout_swap(data: &[u8]) -> (r: Result<LoadoutSwap, LoadoutSwapError>)
    ensures
        data@.len() < 7 ==> r matches Err(LoadoutSwapError::Short),
        data@.len() >= 7 && !inner_len_ok(data@) ==> r matches Err(LoadoutSwapError::BadInnerLen),
        data@.len() >= 7 && inner_len_ok(data@) && !spawn_decodes(loadout_record(data@)) ==> (
        r matches Err(LoadoutSwapError::Record(e)) && e == spawn_error(loadout_record(data@))),
        data@.len() >= 7 && inner_len_ok(data@) && spawn_decodes(loadout_record(data@)) ==> (
        r matches Ok(sw) && {
            &&& spawn_matches(loadout_record(data@), sw.record)
            &&& sw.spawn_id == u32_le(data@, 0)
            &&& sw.level == sw.record.level
            &&& sw.class_ == sw.record.class_
            &&& sw.race == sw.record.race
            &&& sw.tail_len == data@.len() - inner_len(data@)
        }),
{
    if data.len() < 7 {
        return Err(LoadoutSwapError::Short);
    }
    let spawn_id = rd_u32(data, 0);
    let inner = rd_u16(data, 5) as usize;
    if inner < 8 || inner > data.len() {
        return Err(LoadoutSwapError::BadInnerLen);
    }
    let record = match parse_spawn(&data[7..inner]) {
        Ok(z) => z,
        Err(e) => {
            return Err(LoadoutSwapError::Record(e));
        },
    };
    let level = record.level;
    let class_ = record.class_;
    let race = record.race;
    Ok(LoadoutSwap { record, spawn_id, level, class_, race, tail_len: data.len() - inner })
}

/// The tail length a decoded swap reports is the length of the tail that
/// `tail_of` borrows: 0 exactly for a broadcast, whose `innerLen` is the
/// whole packet.
pub proof fn lemma_tail_len_is_tail(s: Seq<u8>)
    requires
        s.len() >= 7,
        inner_len_ok(s),
    ensures
        loadout_tail(s).len() == s.len() - inner_len(s),
        (loadout_tail(s).len() == 0) == (inner_len(s) == s.len()),
{
}

} // verus!
