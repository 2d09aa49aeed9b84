//! `OP_BuffList` on Legends: the authoritative active-buff list of one spawn.
//!
//! ```text
//! u32 spawnId | u32 (seq/timestamp) | u8 flag=1 | u8 count | u8[5] pad
//! then `count` records, each:
//!   { u32 spellId, u32 =1, i32 remainingTicks, u32 =0 }   (16 fixed bytes)
//!   + NUL-terminated latin-1 caster name (empty for self-cast)
//!   + slot: u32 BETWEEN records, u16 on the FINAL record.
//! ```
//! `remainingTicks <= 0` is permanent, and the cursor landing exactly on the
//! packet end is the structural canary.
use vstd::prelude::*;
use crate::decode_error::DecodeError;
use crate::text::{latin1, latin1_chars};
use crate::wire::{as_i32, find_byte, lemma_find_byte, rd_u16, rd_u32, scan_byte, u16_le, u32_le, to_i32};

verus! {

/// One decoded record.
#[derive(Debug, Clone, PartialEq, Eq)]
pub struct BuffListEntry {
    pub spell_id: u32,
    /// `<= 0` means permanent.
    pub remaining_ticks: i32,
    /// Buff-window slot.
    pub slot: u32,
    /// Who cast it (empty for self-cast).
    pub caster: String,
}

/// A decoded `OP_BuffList`.
#[derive(Debug, Clone, PartialEq, Eq)]
pub struct BuffList {
    pub spawn_id: u32,
    pub entries: Vec<BuffListEntry>,
}

/// A record as read off the wire: `(spell_id, remaining_ticks, caster bytes, slot)`.
pub type BuffRecord = (u32, i32, Seq<u8>, u32);

/// Offset of the first record.
pub open spec fn buff_list_first_record() -> int {
    15
}

/// The record at `pos` (`last`: the final one, whose slot is a `u16`) and
/// the offset after it, or `None` when it does not fit.
pub open spec fn buff_record_at(s: Seq<u8>, pos: int, last: bool) -> Option<(BuffRecord, int)> {
    if pos + 16 > s.len() {
        None
    } else {
        let nul = find_byte(s, pos + 16, 0);
        if nul >= s.len() {
            None
        } else if last {
            if nul + 3 > s.len() {
                None
            } else {
                Some(
                    (
                        (
                            u32_le(s, pos),
                            as_i32(u32_le(s, pos + 8)),
                            s.subrange(pos + 16, nul),
                            u16_le(s, nul + 1) as u32,
                        ),
                        nul + 3,
                    ),
                )
            }
        } else {
            if nul + 5 > s.len() {
                None
            } else {
                Some(
                    (
                        (
                            u32_le(s, pos),
                            as_i32(u32_le(s, pos + 8)),
                            s.subrange(pos + 16, nul),
                            u32_le(s, nul + 1),
                        ),
                        nul + 5,
                    ),
                )
            }
        }
    }
}

/// The first `n` of `count` records and the offset after them, or `None`
/// when one of them does not fit.
pub open spec fn buff_records(s: Seq<u8>, count: int, n: nat) -> Option<(Seq<BuffRecord>, int)>
    decreases n,
{
    if n == 0 {
        Some((Seq::empty(), buff_list_first_record()))
    } else {
        match buff_records(s, count, (n - 1) as nat) {
            None => None,
            Some((rs, p)) => match buff_record_at(s, p, n == count) {
                None => None,
                Some((r, q)) => Some((rs.push(r), q)),
            },
        }
    }
}

/// The packet decodes: every declared record fits and the last one ends
/// exactly at the end of the payload.
pub open spec fn buff_list_decodes(s: Seq<u8>) -> bool {
    s.len() >= 15 && match buff_records(s, s[9] as int, s[9] as nat) {
        Some((_, end)) => end == s.len(),
        None => false,
    }
}

/// The records of a packet that decodes.
pub open spec fn buff_list_records(s: Seq<u8>) -> Seq<BuffRecord> {
    buff_records(s, s[9] as int, s[9] as nat).unwrap().0
}

/// An entry carries exactly the record's fields.
pub open spec fn entry_matches(e: BuffListEntry, r: BuffRecord) -> bool {
    &&& e.spell_id == r.0
    &&& e.remaining_ticks == r.1
    &&& e.caster@ == latin1_chars(r.2)
    &&& e.slot == r.3
}

proof fn lemma_records_fail_upward(s: Seq<u8>, count: int, n: nat, m: nat)
    requires
        n <= m,
        buff_records(s, count, n) is None,
    ensures
        buff_records(s, count, m) is None,
    decreases m - n,
{
    if n < m {
        lemma_records_fail_upward(s, count, n, (m - 1) as nat);
    }
}

proof fn lemma_records_pos(s: Seq<u8>, count: int, n: nat)
    requires
        buff_records(s, count, n) is Some,
    ensures
        buff_list_first_record() <= buff_records(s, count, n).unwrap().1,
        n > 0 ==> buff_records(s, count, n).unwrap().1 <= s.len(),
        buff_records(s, count, n).unwrap().0.len() == n,
    decreases n,
{
    if n > 0 {
        lemma_records_pos(s, count, (n - 1) as nat);
        let p = buff_records(s, count, (n - 1) as nat).unwrap().1;
        if p + 16 <= s.len() {
            lemma_find_byte(s, p + 16, 0);
        }
    }
}

/// `s` is a prefix of `t`.
pub open spec fn is_prefix(s: Seq<u8>, t: Seq<u8>) -> bool {
    s.len() <= t.len() && forall|k: int| 0 <= k < s.len() ==> s[k] == t[k]
}

proof fn lemma_find_byte_prefix(s: Seq<u8>, t: Seq<u8>, from: int, x: u8)
    requires
        is_prefix(s, t),
        0 <= from,
        find_byte(s, from, x) < s.len(),
    ensures
        find_byte(t, from, x) == find_byte(s, from, x),
    decreases s.len() - from,
{
    if from < s.len() && s[from] != x {
        lemma_find_byte_prefix(s, t, from + 1, x);
    }
}

proof fn lemma_record_at_prefix(s: Seq<u8>, t: Seq<u8>, pos: int, last: bool)
    requires
        is_prefix(s, t),
        0 <= pos,
        buff_record_at(s, pos, last) is Some,
    ensures
        buff_record_at(t, pos, last) == buff_record_at(s, pos, last),
{
    lemma_find_byte(s, pos + 16, 0);
    lemma_find_byte_prefix(s, t, pos + 16, 0);
    let nul = find_byte(s, pos + 16, 0);
    assert(s.subrange(pos + 16, nul) =~= t.subrange(pos + 16, nul));
}

/// Reading the first `n` records only looks at bytes they span: a longer
/// payload that starts with `s` reads the same records to the same end.
proof fn lemma_records_prefix(s: Seq<u8>, t: Seq<u8>, count: int, n: nat)
    requires
        is_prefix(s, t),
        buff_records(s, count, n) is Some,
    ensures
        buff_records(t, count, n) == buff_records(s, count, n),
    decreases n,
{
    if n > 0 {
        if buff_records(s, count, (n - 1) as nat) is None {
            lemma_records_fail_upward(s, count, (n - 1) as nat, n);
        }
        lemma_records_prefix(s, t, count, (n - 1) as nat);
        lemma_records_pos(s, count, (n - 1) as nat);
        let p = buff_records(s, count, (n - 1) as nat).unwrap().1;
        lemma_record_at_prefix(s, t, p, n == count);
    }
}

/// A payload that decodes is consumed exactly: it holds as many records as
/// its count byte says, and the same payload one byte shorter, or with any
/// byte appended, does not decode.
pub proof fn lemma_buff_list_exact_length(s: Seq<u8>, x: u8)
    requires
        buff_list_decodes(s),
    ensures
        buff_list_records(s).len() == s[9],
        !buff_list_decodes(s.drop_last()),
        !buff_list_decodes(s.push(x)),
{
    let c = s[9];
    lemma_records_pos(s, c as int, c as nat);
    let longer = s.push(x);
    assert(is_prefix(s, longer));
    lemma_records_prefix(s, longer, c as int, c as nat);
    assert(longer[9] == c);
    let shorter = s.drop_last();
    if shorter.len() >= 15 {
        assert(shorter[9] == c);
        assert(is_prefix(shorter, s));
        if buff_records(shorter, c as int, c as nat) is Some {
            lemma_records_prefix(shorter, s, c as int, c as nat);
        }
    }
}

/// Where a record's fields sit: from its start, the spell id is the first
/// `u32`, the remaining ticks the third (signed), and the caster name runs
/// from byte 16 to the next NUL; the slot after that NUL is a `u16` on the
/// final record and a `u32` on the others, and the next record starts right
/// after the slot. The first record starts at byte 15.
pub proof fn lemma_buff_record_layout(s: Seq<u8>, count: int, n: nat)
    requires
        buff_records(s, count, n + 1) is Some,
    ensures
        ({
            let p = if n == 0 { 15 } else { buff_records(s, count, n).unwrap().1 };
            let nul = find_byte(s, p + 16, 0);
            let r = buff_records(s, count, n + 1).unwrap().0[n as int];
            &&& r.0 == u32_le(s, p)
            &&& r.1 == as_i32(u32_le(s, p + 8))
            &&& r.2 == s.subrange(p + 16, nul)
            &&& s[nul] == 0
            &&& (n + 1 == count ==> r.3 == u16_le(s, nul + 1) as u32 && buff_records(
                s,
                count,
                n + 1,
            ).unwrap().1 == nul + 3)
            &&& (n + 1 != count ==> r.3 == u32_le(s, nul + 1) && buff_records(
                s,
                count,
                n + 1,
            ).unwrap().1 == nul + 5)
        }),
{
    if buff_records(s, count, n) is None {
        lemma_records_fail_upward(s, count, n, n + 1);
    }
    lemma_records_pos(s, count, n);
    let p = buff_records(s, count, n).unwrap().1;
    lemma_find_byte(s, p + 16, 0);
}

/// Decodes `OP_BuffList`: `Short` under 15 bytes, `BadLength` when a record
/// does not fit or the records do not end exactly at the payload's end.
pub fn parse_buff_list(b: &[u8]) -> (r: Result<BuffList, DecodeError>)
    ensures
        b@.len() < 15 ==> r == Err::<BuffList, DecodeError>(DecodeError::Short(b@.len() as usize)),
        b@.len() >= 15 && !buff_list_decodes(b@) ==> r == Err::<BuffList, DecodeError>(
            DecodeError::BadLength(b@.len() as usize),
        ),
        buff_list_decodes(b@) ==> (r matches Ok(list) && {
            &&& list.spawn_id == u32_le(b@, 0)
            &&& list.entries@.len() == buff_list_records(b@).len() == b@[9]
            &&& forall|i: int|
                0 <= i < list.entries@.len() ==> entry_matches(
                    #[trigger] list.entries@[i],
                    buff_list_records(b@)[i],
                )
        }),
{
    if b.len() < 15 {
        return Err(DecodeError::Short(b.len()));
    }
    let spawn_id = rd_u32(b, 0);
    let count = b[9] as usize;
    let mut pos: usize = 15;
    let mut entries: Vec<BuffListEntry> = Vec::new();
    let mut i: usize = 0;
    while i < count
        invariant
            b@.len() >= 15,
            count == b@[9],
            i <= count,
            pos <= b@.len(),
            buff_records(b@, count as int, i as nat) == Some::<(Seq<BuffRecord>, int)>(
                (buff_records(b@, count as int, i as nat).unwrap().0, pos as int),
            ),
            entries@.len() == i,
            forall|j: int|
                0 <= j < i ==> entry_matches(
                    #[trigger] entries@[j],
                    buff_records(b@, count as int, i as nat).unwrap().0[j],
                ),
        decreases count - i,
    {
        let ghost prev = buff_records(b@, count as int, i as nat).unwrap().0;
        proof {
            lemma_records_pos(b@, count as int, i as nat);
        }
        if b.len() - pos < 16 {
            proof {
                lemma_records_fail_upward(b@, count as int, (i + 1) as nat, count as nat);
            }
            return Err(DecodeError::BadLength(b.len()));
        }
        let spell_id = rd_u32(b, pos);
        let remaining_ticks = to_i32(rd_u32(b, pos + 8));
        let nul = scan_byte(b, pos + 16, 0);
        if nul >= b.len() {
            proof {
                lemma_records_fail_upward(b@, count as int, (i + 1) as nat, count as nat);
            }
            return Err(DecodeError::BadLength(b.len()));
        }
        let caster = latin1(&b[pos + 16..nul]);
        let after = nul + 1;
        let slot: u32;
        if i + 1 == count {
            if b.len() - after < 2 {
                proof {
                    lemma_records_fail_upward(b@, count as int, (i + 1) as nat, count as nat);
                }
                return Err(DecodeError::BadLength(b.len()));
            }
            slot = rd_u16(b, after) as u32;
            pos = after + 2;
        } else {
            if b.len() - after < 4 {
                proof {
                    lemma_records_fail_upward(b@, count as int, (i + 1) as nat, count as nat);
                }
                return Err(DecodeError::BadLength(b.len()));
            }
            slot = rd_u32(b, after);
            pos = after + 4;
        }
        let e = BuffListEntry { spell_id, remaining_ticks, slot, caster };
        let ghost old_entries = entries@;
        entries.push(e);
        i = i + 1;
        proof {
            let cur = buff_records(b@, count as int, i as nat).unwrap().0;
            assert(cur == prev.push(cur.last()));
            assert forall|j: int| 0 <= j < i implies entry_matches(
                #[trigger] entries@[j],
                buff_records(b@, count as int, i as nat).unwrap().0[j],
            ) by {
                if j < i - 1 {
                    assert(entries@[j] == old_entries[j]);
                }
            }
        }
    }
    proof {
        lemma_records_pos(b@, count as int, count as nat);
    }
    if pos != b.len() {
        return Err(DecodeError::BadLength(b.len()));
    }
    Ok(BuffList { spawn_id, entries })
}

} // verus!
