//! The guild-in-zone opcodes, the only source of guild NAMES (a spawn carries
//! just a guild id pair).
//!
//! ```text
//! NewGuildInZone   u32 guild_id, u32 server_id, cstring name
//! GuildsInZoneList u32 name_len, name (NO terminator), u32 count,
//!                  count × { u32 guild_id, u32 server_id, cstring name }
//! ```
//! The list's count is the structural canary: a short read fails the whole
//! list rather than returning part of it.
use vstd::prelude::*;
use crate::text::{lossy_string, utf8_lossy};
use crate::wire::{find_byte, rd_u32, scan_byte, u32_le};

verus! {

/// A guild present in the zone.
#[derive(Debug, Clone, PartialEq, Eq)]
pub struct GuildInZone {
    pub guild_id: u32,
    pub server_id: u32,
    pub name: String,
}

/// Why a guild-in-zone payload did not decode.
#[derive(Debug, Clone, Copy, PartialEq, Eq, Structural)]
pub enum GuildInZoneError {
    /// At least the first count of bytes was needed; the second arrived.
    BadLength(usize, usize),
    /// The declared count of guilds, and how many were read before one failed.
    CountMismatch(usize, usize),
    /// The player name length overruns the payload of this length.
    BadNameLen(usize, usize),
}

/// A whole entry, NUL included, starts at `off`.
pub open spec fn entry_ok(b: Seq<u8>, off: int) -> bool {
    off + 8 <= b.len() && find_byte(b, off + 8, 0) < b.len()
}

/// Offset just past the entry at `off`.
pub open spec fn entry_next(b: Seq<u8>, off: int) -> int {
    find_byte(b, off + 8, 0) + 1
}

/// `g` is the entry at `off`.
pub open spec fn entry_matches(g: GuildInZone, b: Seq<u8>, off: int) -> bool {
    &&& g.guild_id == u32_le(b, off)
    &&& g.server_id == u32_le(b, off + 4)
    &&& g.name@ == utf8_lossy(b.subrange(off + 8, find_byte(b, off + 8, 0)))
}

/// Offset after `k` consecutive entries from `p`, if they all decode.
pub open spec fn entries_walk(b: Seq<u8>, p: int, k: nat) -> Option<int>
    decreases k,
{
    if k == 0 {
        Some(p)
    } else {
        match entries_walk(b, p, (k - 1) as nat) {
            Some(q) => if entry_ok(b, q) {
                Some(entry_next(b, q))
            } else {
                None
            },
            None => None,
        }
    }
}

/// The entry at `off`, with the offset just past its NUL.
fn entry_at(b: &[u8], off: usize) -> (r: Option<(GuildInZone, usize)>)
    requires
        off <= b@.len(),
    ensures
        r is Some <==> entry_ok(b@, off as int),
        r matches Some((g, next)) ==> entry_matches(g, b@, off as int) && next == entry_next(
            b@,
            off as int,
        ) && next <= b@.len(),
{
    if b.len() - off < 8 {
        return None;
    }
    let guild_id = rd_u32(b, off);
    let server_id = rd_u32(b, off + 4);
    let nul = scan_byte(b, off + 8, 0);
    if nul == b.len() {
        return None;
    }
    let name = lossy_string(&b[off + 8..nul]);
    Some((GuildInZone { guild_id, server_id, name }, nul + 1))
}

/// Decodes `OP_NewGuildInZone`: one guild became present in the zone.
pub fn parse_new_guild_in_zone(b: &[u8]) -> (r: Result<GuildInZone, GuildInZoneError>)
    ensures
        b@.len() < 9 || !entry_ok(b@, 0) ==> r == Err::<GuildInZone, GuildInZoneError>(
            GuildInZoneError::BadLength(9, b@.len() as usize),
        ),
        b@.len() >= 9 && entry_ok(b@, 0) ==> (r matches Ok(g) && entry_matches(g, b@, 0)),
{
    if b.len() < 9 {
        return Err(GuildInZoneError::BadLength(9, b.len()));
    }
    match entry_at(b, 0) {
        Some((entry, _)) => Ok(entry),
        None => Err(GuildInZoneError::BadLength(9, b.len())),
    }
}

/// Decodes `OP_GuildsInZoneList`: every guild present in the zone. The
/// leading player name is skipped. Fails with `CountMismatch(count, k)` when
/// entry `k` (the first that does) does not decode.
pub fn parse_guilds_in_zone_list(b: &[u8]) -> (r: Result<Vec<GuildInZone>, GuildInZoneError>)
    ensures
        b@.len() < 4 ==> r == Err::<Vec<GuildInZone>, GuildInZoneError>(
            GuildInZoneError::BadLength(4, b@.len() as usize),
        ),
        b@.len() >= 4 && 8 + u32_le(b@, 0) > b@.len() ==> r == Err::<
            Vec<GuildInZone>,
            GuildInZoneError,
        >(GuildInZoneError::BadNameLen(u32_le(b@, 0) as usize, b@.len() as usize)),
        b@.len() >= 4 && 8 + u32_le(b@, 0) <= b@.len() ==> {
            let h = 8 + u32_le(b@, 0);
            let count = u32_le(b@, h - 4);
            &&& r is Ok <==> entries_walk(b@, h, count as nat) is Some
            &&& r matches Ok(list) ==> list@.len() == count && forall|i: int|
                0 <= i < count ==> entry_matches(
                    #[trigger] list@[i],
                    b@,
                    entries_walk(b@, h, i as nat)->0,
                )
            &&& r matches Err(e) ==> e matches GuildInZoneError::CountMismatch(c, k) && c == count
                && k < count && entries_walk(b@, h, k as nat) is Some && entries_walk(
                b@,
                h,
                (k + 1) as nat,
            ) is None
        },
{
    if b.len() < 4 {
        return Err(GuildInZoneError::BadLength(4, b.len()));
    }
    let name_len = rd_u32(b, 0);
    if b.len() < 8 || b.len() - 8 < name_len as usize {
        return Err(GuildInZoneError::BadNameLen(name_len as usize, b.len()));
    }
    let count_off = 4 + name_len as usize;
    let count = rd_u32(b, count_off);
    let ghost h = count_off + 4;
    let mut guilds: Vec<GuildInZone> = Vec::new();
    let mut off = count_off + 4;
    let mut i: u32 = 0;
    while i < count
        invariant
            h == count_off + 4,
            b@.len() >= 8,
            h == 8 + u32_le(b@, 0),
            h <= b@.len(),
            count == u32_le(b@, h - 4),
            i <= count,
            off <= b@.len(),
            entries_walk(b@, h, i as nat) == Some(off as int),
            guilds@.len() == i,
            forall|k: int|
                0 <= k < i ==> entry_matches(
                    #[trigger] guilds@[k],
                    b@,
                    entries_walk(b@, h, k as nat)->0,
                ),
        decreases count - i,
    {
        match entry_at(b, off) {
            Some((entry, next)) => {
                guilds.push(entry);
                off = next;
            },
            None => {
                proof {
                    lemma_entries_walk_stops(b@, h, i as nat, count as nat);
                }
                return Err(GuildInZoneError::CountMismatch(count as usize, guilds.len()));
            },
        }
        i = i + 1;
    }
    Ok(guilds)
}

/// Once an entry fails, walking further entries fails too.
proof fn lemma_entries_walk_stops(b: Seq<u8>, p: int, i: nat, n: nat)
    requires
        i < n,
        entries_walk(b, p, (i + 1) as nat) is None,
    ensures
        entries_walk(b, p, n) is None,
    decreases n - i,
{
    if n > i + 1 {
        lemma_entries_walk_stops(b, p, i, (n - 1) as nat);
    }
}

} // verus!
