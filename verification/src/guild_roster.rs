//! `OP_GuildMemberList`: the full guild roster, sent on request and at
//! zone-in.
//!
//! ```text
//! header  LPText requester name, u32 guildId, u32 unknown, u16, u32 count
//! record  LPText name, u32 level, u32 banker, u32 classMask, u32 rank,
//!         u32 lastOn, u8 tributeOn, u8 trophyOn, u32 tributeDonated,
//!         u32 tributeLastDonation, u8 fullMember, LPText publicNote,
//!         u16 zoneId, 4 unread
//! ```
//! `LPText` is a `u32` length followed by that many unterminated bytes. The
//! declared count must land exactly on the payload end: that is the canary
//! that every variable-length field was walked correctly.
use vstd::prelude::*;
use crate::text::{lossy_string, utf8_lossy};
use crate::wire::{rd_u16, rd_u32, u16_le, u32_le};

verus! {

/// One roster row.
#[derive(Debug, Clone, PartialEq, Eq, Default)]
pub struct GuildMemberRow {
    pub name: String,
    pub level: u32,
    /// 0 = none, 1 = banker, 2 = alt, 3 = alt banker, kept raw.
    pub banker_flag: u32,
    /// Multiclass bitmask (bit N = class N), NOT a class id.
    pub class_mask: u32,
    /// 0 = member, 1 = officer, 2 = leader.
    pub rank: u32,
    /// Unix seconds; 0 when never seen.
    pub last_on: u32,
    pub full_member: u8,
    pub public_note: String,
    /// 0 when the member is offline.
    pub zone_id: u16,
}

/// The decoded roster.
#[derive(Debug, Clone, PartialEq, Eq, Default)]
pub struct GuildRoster {
    pub guild_id: u32,
    pub members: Vec<GuildMemberRow>,
}

/// Why a roster did not decode.
#[derive(Debug, Clone, Copy, PartialEq, Eq, Structural)]
pub enum GuildRosterError {
    /// A fixed field at this offset runs past the payload of this length.
    Truncated(usize, usize),
    /// The declared count (and the rows read) did not end on the payload end.
    CountMismatch(usize, usize),
    /// A length prefix (value, its offset) overruns the payload of this length.
    BadLength(u32, usize, usize),
}

/// Where a walk over the payload stands: at an offset, or stopped by a
/// fixed read past the end, or by a length prefix that overruns it.
pub enum Walked {
    At(int),
    Truncated(int),
    BadLength(u32, int),
}

/// A fixed `w`-byte read at `p`.
pub open spec fn fixed(b: Seq<u8>, p: int, w: int) -> Walked {
    if p + w > b.len() {
        Walked::Truncated(p)
    } else {
        Walked::At(p + w)
    }
}

/// A length-prefixed text at `p`.
pub open spec fn lp(b: Seq<u8>, p: int) -> Walked {
    if p + 4 > b.len() {
        Walked::Truncated(p)
    } else if p + 4 + u32_le(b, p) > b.len() {
        Walked::BadLength(u32_le(b, p), p)
    } else {
        Walked::At(p + 4 + u32_le(b, p))
    }
}

/// Continue a walk with a fixed `w`-byte read.
pub open spec fn then_fixed(w: Walked, b: Seq<u8>, width: int) -> Walked {
    match w {
        Walked::At(p) => fixed(b, p, width),
        _ => w,
    }
}

/// Continue a walk with a length-prefixed text.
pub open spec fn then_lp(w: Walked, b: Seq<u8>) -> Walked {
    match w {
        Walked::At(p) => lp(b, p),
        _ => w,
    }
}

/// The text of the length-prefixed field at `p`.
pub open spec fn lp_chars(b: Seq<u8>, p: int) -> Seq<char> {
    utf8_lossy(b.subrange(p + 4, p + 4 + u32_le(b, p)))
}

/// The error a stopped walk reports.
pub open spec fn walk_error(w: Walked, len: int) -> GuildRosterError {
    match w {
        Walked::Truncated(p) => GuildRosterError::Truncated(p as usize, len as usize),
        Walked::BadLength(n, p) => GuildRosterError::BadLength(n, p as usize, len as usize),
        Walked::At(_) => GuildRosterError::CountMismatch(0, 0),
    }
}

/// Offset just past the name of the row at `p`.
pub open spec fn row_after_name(b: Seq<u8>, p: int) -> int {
    p + 4 + u32_le(b, p)
}

/// Offset of the public note of the row at `p`.
pub open spec fn row_note(b: Seq<u8>, p: int) -> int {
    row_after_name(b, p) + 31
}

/// Offset of the zone id of the row at `p`.
pub open spec fn row_zone(b: Seq<u8>, p: int) -> int {
    row_note(b, p) + 4 + u32_le(b, row_note(b, p))
}

/// Walk over the row at `p`.
pub open spec fn row_walk(b: Seq<u8>, p: int) -> Walked {
    let w = then_fixed(then_fixed(then_fixed(then_fixed(then_fixed(lp(b, p), b, 4), b, 4), b, 4), b, 4), b, 4);
    let w = then_fixed(then_fixed(then_fixed(then_fixed(then_fixed(w, b, 1), b, 1), b, 4), b, 4), b, 1);
    then_fixed(then_fixed(then_lp(w, b), b, 2), b, 4)
}

/// `row` is the row at `p`, field by field.
pub open spec fn row_matches(row: GuildMemberRow, b: Seq<u8>, p: int) -> bool {
    let q = row_after_name(b, p);
    &&& row.name@ == lp_chars(b, p)
    &&& row.level == u32_le(b, q)
    &&& row.banker_flag == u32_le(b, q + 4)
    &&& row.class_mask == u32_le(b, q + 8)
    &&& row.rank == u32_le(b, q + 12)
    &&& row.last_on == u32_le(b, q + 16)
    &&& row.full_member == b[q + 30]
    &&& row.public_note@ == lp_chars(b, row_note(b, p))
    &&& row.zone_id == u16_le(b, row_zone(b, p))
}

/// Walk over `k` consecutive rows from `p`.
pub open spec fn rows_walk(b: Seq<u8>, p: int, k: nat) -> Walked
    decreases k,
{
    if k == 0 {
        Walked::At(p)
    } else {
        match rows_walk(b, p, (k - 1) as nat) {
            Walked::At(q) => row_walk(b, q),
            w => w,
        }
    }
}

/// Offset of row `i` of the rows from `p` (when the walk reaches it).
pub open spec fn row_start(b: Seq<u8>, p: int, i: nat) -> int {
    match rows_walk(b, p, i) {
        Walked::At(q) => q,
        _ => -1,
    }
}

/// Walk over the header: requester name, guild id, unknown, 2 bytes, count.
pub open spec fn header_walk(b: Seq<u8>) -> Walked {
    then_fixed(then_fixed(then_fixed(then_fixed(lp(b, 0), b, 4), b, 4), b, 2), b, 4)
}

/// The declared member count (the header's last word).
pub open spec fn declared_count(b: Seq<u8>) -> u32 {
    u32_le(b, row_after_name(b, 0) + 10)
}

/// Bytes-and-offset reader over the payload.
struct Cursor<'a> {
    b: &'a [u8],
    p: usize,
}

impl<'a> Cursor<'a> {
    fn u8(&mut self) -> (r: Result<u8, GuildRosterError>)
        requires
            old(self).p <= old(self).b@.len(),
        ensures
            final(self).b == old(self).b,
            final(self).p <= final(self).b@.len(),
            match fixed(old(self).b@, old(self).p as int, 1) {
                Walked::At(q) => r == Ok::<u8, GuildRosterError>(old(self).b@[old(self).p as int])
                    && final(self).p == q,
                w => r == Err::<u8, GuildRosterError>(walk_error(w, old(self).b@.len() as int)),
            },
    {
        if self.p >= self.b.len() {
            return Err(GuildRosterError::Truncated(self.p, self.b.len()));
        }
        let v = self.b[self.p];
        self.p = self.p + 1;
        Ok(v)
    }

    fn u16(&mut self) -> (r: Result<u16, GuildRosterError>)
        requires
            old(self).p <= old(self).b@.len(),
        ensures
            final(self).b == old(self).b,
            final(self).p <= final(self).b@.len(),
            match fixed(old(self).b@, old(self).p as int, 2) {
                Walked::At(q) => r == Ok::<u16, GuildRosterError>(
                    u16_le(old(self).b@, old(self).p as int),
                ) && final(self).p == q,
                w => r == Err::<u16, GuildRosterError>(walk_error(w, old(self).b@.len() as int)),
            },
    {
        if self.b.len() - self.p < 2 {
            return Err(GuildRosterError::Truncated(self.p, self.b.len()));
        }
        let v = rd_u16(self.b, self.p);
        self.p = self.p + 2;
        Ok(v)
    }

    fn u32(&mut self) -> (r: Result<u32, GuildRosterError>)
        requires
            old(self).p <= old(self).b@.len(),
        ensures
            final(self).b == old(self).b,
            final(self).p <= final(self).b@.len(),
            match fixed(old(self).b@, old(self).p as int, 4) {
                Walked::At(q) => r == Ok::<u32, GuildRosterError>(
                    u32_le(old(self).b@, old(self).p as int),
                ) && final(self).p == q,
                w => r == Err::<u32, GuildRosterError>(walk_error(w, old(self).b@.len() as int)),
            },
    {
        if self.b.len() - self.p < 4 {
            return Err(GuildRosterError::Truncated(self.p, self.b.len()));
        }
        let v = rd_u32(self.b, self.p);
        self.p = self.p + 4;
        Ok(v)
    }

    fn skip(&mut self, n: usize) -> (r: Result<(), GuildRosterError>)
        requires
            old(self).p <= old(self).b@.len(),
        ensures
            final(self).b == old(self).b,
            final(self).p <= final(self).b@.len(),
            match fixed(old(self).b@, old(self).p as int, n as int) {
                Walked::At(q) => r is Ok && final(self).p == q,
                w => r == Err::<(), GuildRosterError>(walk_error(w, old(self).b@.len() as int)),
            },
    {
        if self.b.len() - self.p < n {
            return Err(GuildRosterError::Truncated(self.p, self.b.len()));
        }
        self.p = self.p + n;
        Ok(())
    }

    /// A `u32` length and that many unterminated bytes, as text.
    fn lp_text(&mut self) -> (r: Result<String, GuildRosterError>)
        requires
            old(self).p <= old(self).b@.len(),
        ensures
            final(self).b == old(self).b,
            final(self).p <= final(self).b@.len(),
            match lp(old(self).b@, old(self).p as int) {
                Walked::At(q) => r matches Ok(s) && s@ == lp_chars(old(self).b@, old(self).p as int)
                    && final(self).p == q,
                w => r == Err::<String, GuildRosterError>(
                    walk_error(w, old(self).b@.len() as int),
                ),
            },
    {
        let at = self.p;
        let len = self.u32()?;
        if (self.b.len() - self.p) < len as usize {
            return Err(GuildRosterError::BadLength(len, at, self.b.len()));
        }
        let start = self.p;
        self.p = self.p + len as usize;
        Ok(lossy_string(&self.b[start..self.p]))
    }

    /// One roster row.
    fn row(&mut self) -> (r: Result<GuildMemberRow, GuildRosterError>)
        requires
            old(self).p <= old(self).b@.len(),
        ensures
            final(self).b == old(self).b,
            final(self).p <= final(self).b@.len(),
            match row_walk(old(self).b@, old(self).p as int) {
                Walked::At(q) => r matches Ok(row) && row_matches(
                    row,
                    old(self).b@,
                    old(self).p as int,
                ) && final(self).p == q,
                w => r == Err::<GuildMemberRow, GuildRosterError>(
                    walk_error(w, old(self).b@.len() as int),
                ),
            },
    {
        let ghost b = self.b@;
        let ghost p0 = self.p as int;
        let name = self.lp_text()?;
        let level = self.u32()?;
        let banker_flag = self.u32()?;
        let class_mask = self.u32()?;
        let rank = self.u32()?;
        let last_on = self.u32()?;
        let _tribute_on = self.u8()?;
        let _trophy_on = self.u8()?;
        let _tribute_donated = self.u32()?;
        let _tribute_last_donation = self.u32()?;
        let full_member = self.u8()?;
        assert(self.p == row_note(b, p0));
        let public_note = self.lp_text()?;
        let zone_id = self.u16()?;
        self.skip(4)?;
        Ok(
            GuildMemberRow {
                name,
                level,
                banker_flag,
                class_mask,
                rank,
                last_on,
                full_member,
                public_note,
                zone_id,
            },
        )
    }
}

/// Decodes `OP_GuildMemberList`. A read past the payload in the header or a
/// row is `Truncated` at that read's offset, a length prefix that overruns it
/// is `BadLength`, and a walk that does not end exactly on the payload end
/// after the declared count of rows is `CountMismatch`; otherwise every row,
/// in order. The requester's own name is walked past, not returned.
pub fn parse_guild_member_list(b: &[u8]) -> (r: Result<GuildRoster, GuildRosterError>)
    ensures
        match header_walk(b@) {
            Walked::At(h) => {
                let n = declared_count(b@);
                match rows_walk(b@, h, n as nat) {
                    Walked::At(e) => if e != b@.len() {
                        r == Err::<GuildRoster, GuildRosterError>(
                            GuildRosterError::CountMismatch(n as usize, n as usize),
                        )
                    } else {
                        r matches Ok(roster) && roster.guild_id == u32_le(
                            b@,
                            row_after_name(b@, 0),
                        ) && roster.members@.len() == n && forall|i: int|
                            0 <= i < n ==> row_matches(
                                #[trigger] roster.members@[i],
                                b@,
                                row_start(b@, h, i as nat),
                            )
                    },
                    w => r == Err::<GuildRoster, GuildRosterError>(
                        walk_error(w, b@.len() as int),
                    ),
                }
            },
            w => r == Err::<GuildRoster, GuildRosterError>(walk_error(w, b@.len() as int)),
        },
{
    let mut c = Cursor { b, p: 0 };
    let _requester = c.lp_text()?;
    let guild_id = c.u32()?;
    let _unknown = c.u32()?;
    c.skip(2)?;
    let count = c.u32()?;
    let ghost h = c.p as int;
    let mut members: Vec<GuildMemberRow> = Vec::new();
    let mut i: u32 = 0;
    while i < count
        invariant
            c.b == b,
            c.p <= b@.len(),
            i <= count,
            header_walk(b@) == Walked::At(h),
            count == declared_count(b@),
            guild_id == u32_le(b@, row_after_name(b@, 0)),
            rows_walk(b@, h, i as nat) == Walked::At(c.p as int),
            members@.len() == i,
            forall|k: int|
                0 <= k < i ==> row_matches(#[trigger] members@[k], b@, row_start(b@, h, k as nat)),
        decreases count - i,
    {
        let ghost before = c.p as int;
        let row = c.row();
        match row {
            Ok(row) => {
                members.push(row);
            },
            Err(e) => {
                proof {
                    lemma_rows_walk_stops(b@, h, i as nat, count as nat);
                }
                return Err(e);
            },
        }
        i = i + 1;
        assert(rows_walk(b@, h, i as nat) == row_walk(b@, before));
    }
    if c.p != b.len() {
        return Err(GuildRosterError::CountMismatch(count as usize, members.len()));
    }
    Ok(GuildRoster { guild_id, members })
}

/// Once the row walk stops, walking further rows stops at the same place.
proof fn lemma_rows_walk_stops(b: Seq<u8>, p: int, i: nat, n: nat)
    requires
        i < n,
        rows_walk(b, p, i) is At,
        !(row_walk(b, rows_walk(b, p, i)->At_0) is At),
    ensures
        rows_walk(b, p, n) == row_walk(b, rows_walk(b, p, i)->At_0),
    decreases n - i,
{
    if n > i + 1 {
        lemma_rows_walk_stops(b, p, i, (n - 1) as nat);
    }
}

/// Lowest set bit of the multiclass mask, for a consumer that can show only
/// one class; 0 when no bit is set.
pub fn primary_class(class_mask: u32) -> (r: u8)
    ensures
        class_mask == 0 ==> r == 0,
        class_mask != 0 ==> r < 32 && class_mask & (1u32 << r) != 0 && forall|k: u32|
            k < r ==> #[trigger] (class_mask & (1u32 << k)) == 0,
{
    let mut bit: u32 = 0;
    assert(((class_mask as u64) >> 0u64) << 0u64 == class_mask as u64) by (bit_vector);
    while bit < 32
        invariant
            bit <= 32,
            forall|k: u32| k < bit ==> #[trigger] (class_mask & (1u32 << k)) == 0,
            ((class_mask as u64) >> (bit as u64)) << (bit as u64) == class_mask as u64,
        decreases 32 - bit,
    {
        if class_mask & (1u32 << bit) != 0 {
            assert(class_mask != 0) by (bit_vector)
                requires
                    class_mask & (1u32 << bit) != 0,
            ;
            return bit as u8;
        }
        assert(((class_mask as u64) >> ((bit + 1) as u64)) << ((bit + 1) as u64)
            == class_mask as u64) by (bit_vector)
            requires
                bit < 32,
                class_mask & (1u32 << bit) == 0,
                ((class_mask as u64) >> (bit as u64)) << (bit as u64) == class_mask as u64,
        ;
        bit = bit + 1;
    }
    assert(class_mask == 0) by (bit_vector)
        requires
            ((class_mask as u64) >> 32u64) << 32u64 == class_mask as u64,
    ;
    0
}

/// A roster row's fixed fields follow its name directly, as consecutive
/// little-endian `u32`s: level, banker flag, class mask, rank and last-on
/// time; after two flag bytes and two more `u32`s comes the full-member
/// byte, 30 bytes past the name, then the length-prefixed public note and
/// the `u16` zone id right after it.
pub proof fn lemma_row_fields_follow_name(row: GuildMemberRow, b: Seq<u8>, p: int)
    requires
        row_matches(row, b, p),
    ensures
        ({
            let e = p + 4 + u32_le(b, p);
            &&& row.level == u32_le(b, e)
            &&& row.banker_flag == u32_le(b, e + 4)
            &&& row.class_mask == u32_le(b, e + 8)
            &&& row.rank == u32_le(b, e + 12)
            &&& row.last_on == u32_le(b, e + 16)
            &&& row.full_member == b[e + 30]
            &&& row.name@ == utf8_lossy(b.subrange(p + 4, e))
            &&& row.public_note@ == utf8_lossy(
                b.subrange(e + 35, e + 35 + u32_le(b, e + 31)),
            )
            &&& row.zone_id == u16_le(b, e + 35 + u32_le(b, e + 31))
        }),
{
}

} // verus!
