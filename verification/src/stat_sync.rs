//! `OP_HPUpdate` on Legends: the multiplexed stat-sync channel.
//!
//! ```text
//!   /*0000*/ u32 spawnId
//!   /*0004*/ u8  flags   bit0 wide | bit1 HP | bit2 mana | bit3 endurance
//!                        bits4-5 reason (ignored)
//!   /*0005*/     payload  per set stat bit, in bit order:
//!                           wide  {i64 cur, i64 max}
//!                           narrow u8 percent (max = 100)
//!                [optional trailing u32, purpose unknown]
//! ```
//! flags 0x31 with no stat bits is the 6s keepalive.
use vstd::prelude::*;
use crate::decode_error::DecodeError;
use crate::wire::{i64_le, rd_i64, rd_u32, u32_le};

verus! {

/// One decoded stat-sync packet.
#[derive(Debug, Clone, Copy, PartialEq, Eq, Default)]
pub struct StatSync {
    pub spawn_id: u32,
    pub wide: bool,
    pub has_hp: bool,
    pub hp_cur: i64,
    pub hp_max: i64,
    pub has_mana: bool,
    pub mana_cur: i64,
    pub mana_max: i64,
    pub has_end: bool,
    pub end_cur: i64,
    pub end_max: i64,
}

/// Flag bit of stat `k` (1 = HP, 2 = mana, 3 = endurance).
pub open spec fn stat_mask(k: int) -> u8 {
    if k == 1 {
        0x02u8
    } else if k == 2 {
        0x04u8
    } else {
        0x08u8
    }
}

/// Stat `k` is carried by a packet with these flags.
pub open spec fn stat_flagged(flags: u8, k: int) -> bool {
    flags & stat_mask(k) != 0
}

/// The packet uses the wide `{i64 cur, i64 max}` encoding.
pub open spec fn is_wide(flags: u8) -> bool {
    flags & 0x01 != 0
}

/// Bytes per carried stat.
pub open spec fn stat_width(flags: u8) -> int {
    if is_wide(flags) {
        16
    } else {
        1
    }
}

/// Number of flagged stats among 1..k-1 (those encoded before stat `k`).
pub open spec fn stats_before(flags: u8, k: int) -> int {
    (if k > 1 && stat_flagged(flags, 1) { 1int } else { 0int }) + (if k > 2 && stat_flagged(
        flags,
        2,
    ) {
        1int
    } else {
        0int
    })
}

/// Number of flagged stats.
pub open spec fn stat_count(flags: u8) -> int {
    stats_before(flags, 3) + (if stat_flagged(flags, 3) { 1int } else { 0int })
}

/// Length the flags announce: header plus one slot per flagged stat.
pub open spec fn stat_sync_expected_len(flags: u8) -> int {
    5 + stat_width(flags) * stat_count(flags)
}

/// The length is the announced one, optionally plus a trailing `u32`.
pub open spec fn stat_sync_len_ok(s: Seq<u8>) -> bool {
    s.len() == stat_sync_expected_len(s[4]) || s.len() == stat_sync_expected_len(s[4]) + 4
}

/// Byte offset of stat `k`.
pub open spec fn stat_offset(flags: u8, k: int) -> int {
    5 + stat_width(flags) * stats_before(flags, k)
}

/// `(present, cur, max)` of stat `k`: absent when unflagged, and a narrow
/// percent above 100 is dropped.
pub open spec fn stat_reading(s: Seq<u8>, k: int) -> (bool, i64, i64) {
    let f = s[4];
    let o = stat_offset(f, k);
    if !stat_flagged(f, k) {
        (false, 0, 0)
    } else if is_wide(f) {
        (true, i64_le(s, o), i64_le(s, o + 8))
    } else if s[o] > 100 {
        (false, 0, 0)
    } else {
        (true, s[o] as i64, 100)
    }
}

/// Reads stat `k` at `pos`, returning `(present, cur, max, next_pos)`.
fn read_stat(b: &[u8], k: u8, pos: usize) -> (r: (bool, i64, i64, usize))
    requires
        b@.len() >= 5,
        stat_sync_len_ok(b@),
        1 <= k <= 3,
        pos == stat_offset(b@[4], k as int),
    ensures
        (r.0, r.1, r.2) == stat_reading(b@, k as int),
        r.3 == pos + (if stat_flagged(b@[4], k as int) { stat_width(b@[4]) } else { 0 }),
{
    let flags = b[4];
    let mask: u8 = if k == 1 {
        0x02
    } else if k == 2 {
        0x04
    } else {
        0x08
    };
    assert(mask == stat_mask(k as int));
    if flags & mask == 0 {
        return (false, 0, 0, pos);
    }
    assert(stats_before(flags, k as int) + 1 <= stat_count(flags));
    proof {
        if is_wide(flags) {
            assert(pos + 16 <= stat_sync_expected_len(flags));
        } else {
            assert(pos + 1 <= stat_sync_expected_len(flags));
        }
    }
    if flags & 0x01 != 0 {
        let cur = rd_i64(b, pos);
        let max = rd_i64(b, pos + 8);
        (true, cur, max, pos + 16)
    } else {
        let c = b[pos];
        if c > 100 {
            (false, 0, 0, pos + 1)
        } else {
            (true, c as i64, 100, pos + 1)
        }
    }
}

/// Decodes `OP_HPUpdate`. Fails with `Short` under 5 bytes and with
/// `BadLength` when the length is neither the announced one nor that plus a
/// trailing `u32` (the structural canary).
pub fn parse_stat_sync(b: &[u8]) -> (r: Result<StatSync, DecodeError>)
    ensures
        b@.len() < 5 ==> r == Err::<StatSync, DecodeError>(DecodeError::Short(b@.len() as usize)),
        b@.len() >= 5 && !stat_sync_len_ok(b@) ==> r == Err::<StatSync, DecodeError>(
            DecodeError::BadLength(b@.len() as usize),
        ),
        b@.len() >= 5 && stat_sync_len_ok(b@) ==> (r matches Ok(out) && {
            &&& out.spawn_id == u32_le(b@, 0)
            &&& out.wide == is_wide(b@[4])
            &&& (out.has_hp, out.hp_cur, out.hp_max) == stat_reading(b@, 1)
            &&& (out.has_mana, out.mana_cur, out.mana_max) == stat_reading(b@, 2)
            &&& (out.has_end, out.end_cur, out.end_max) == stat_reading(b@, 3)
        }),
{
    if b.len() < 5 {
        return Err(DecodeError::Short(b.len()));
    }
    let flags = b[4];
    let wide = flags & 0x01 != 0;
    let nstats: usize = (if flags & 0x02 != 0 { 1 } else { 0 }) + (if flags & 0x04 != 0 {
        1
    } else {
        0
    }) + (if flags & 0x08 != 0 { 1 } else { 0 });
    let stat_sz: usize = if wide { 16 } else { 1 };
    let expect = 5 + stat_sz * nstats;
    assert(expect == stat_sync_expected_len(flags));
    if b.len() != expect && b.len() != expect + 4 {
        return Err(DecodeError::BadLength(b.len()));
    }
    let spawn_id = rd_u32(b, 0);
    let (has_hp, hp_cur, hp_max, pos) = read_stat(b, 1, 5);
    let (has_mana, mana_cur, mana_max, pos) = read_stat(b, 2, pos);
    let (has_end, end_cur, end_max, _pos) = read_stat(b, 3, pos);
    Ok(StatSync {
        spawn_id,
        wide,
        has_hp,
        hp_cur,
        hp_max,
        has_mana,
        mana_cur,
        mana_max,
        has_end,
        end_cur,
        end_max,
    })
}

/// Where each stat is read: the stats a packet flags (bit 1 HP, bit 2 mana,
/// bit 3 endurance) follow the 5-byte header in that order, each 16 bytes
/// (`i64` current, `i64` maximum) when bit 0 is set and otherwise one
/// percent byte (maximum 100, a byte above 100 dropping the stat). An
/// unflagged stat is absent and takes no room.
pub proof fn lemma_stats_in_flag_order(s: Seq<u8>)
    requires
        s.len() >= 5,
        stat_sync_len_ok(s),
    ensures
        ({
            let f = s[4];
            let w: int = if f & 0x01 != 0 { 16 } else { 1 };
            let o1: int = 5;
            let o2: int = 5 + (if f & 0x02 != 0 { w } else { 0 });
            let o3: int = o2 + (if f & 0x04 != 0 { w } else { 0 });
            &&& f & 0x02 == 0 ==> stat_reading(s, 1) == (false, 0i64, 0i64)
            &&& f & 0x04 == 0 ==> stat_reading(s, 2) == (false, 0i64, 0i64)
            &&& f & 0x08 == 0 ==> stat_reading(s, 3) == (false, 0i64, 0i64)
            &&& f & 0x01 != 0 && f & 0x02 != 0 ==> stat_reading(s, 1) == (
                true,
                i64_le(s, o1),
                i64_le(s, o1 + 8),
            )
            &&& f & 0x01 != 0 && f & 0x04 != 0 ==> stat_reading(s, 2) == (
                true,
                i64_le(s, o2),
                i64_le(s, o2 + 8),
            )
            &&& f & 0x01 != 0 && f & 0x08 != 0 ==> stat_reading(s, 3) == (
                true,
                i64_le(s, o3),
                i64_le(s, o3 + 8),
            )
            &&& f & 0x01 == 0 && f & 0x02 != 0 ==> stat_reading(s, 1) == (if s[o1] <= 100 {
                (true, s[o1] as i64, 100i64)
            } else {
                (false, 0i64, 0i64)
            })
            &&& f & 0x01 == 0 && f & 0x04 != 0 ==> stat_reading(s, 2) == (if s[o2] <= 100 {
                (true, s[o2] as i64, 100i64)
            } else {
                (false, 0i64, 0i64)
            })
            &&& f & 0x01 == 0 && f & 0x08 != 0 ==> stat_reading(s, 3) == (if s[o3] <= 100 {
                (true, s[o3] as i64, 100i64)
            } else {
                (false, 0i64, 0i64)
            })
        }),
{
    let f = s[4];
    let w: int = if f & 0x01 != 0 { 16 } else { 1 };
    let o2: int = 5 + (if f & 0x02 != 0 { w } else { 0 });
    let o3: int = o2 + (if f & 0x04 != 0 { w } else { 0 });
    assert(stat_mask(1) == 0x02u8 && stat_mask(2) == 0x04u8 && stat_mask(3) == 0x08u8);
    assert(stat_width(f) == w);
    assert(stat_offset(f, 1) == 5);
    assert(stat_offset(f, 2) == o2);
    assert(stat_offset(f, 3) == o3);
}

} // verus!
