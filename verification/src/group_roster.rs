//! `OP_GroupUpdate`: the full, authoritative group roster, resent at zone-in.
//! `u32 groupId@0 | u32 count@4 | leader name@8`, then `count` 44-byte member
//! records from offset 18, each a NUL-terminated name, possibly behind leading
//! NULs. `count < 2` is the solo state.
use vstd::prelude::*;
use crate::text::{lossy_string, no_nul_chars, utf8_lossy};
use crate::wire::{find_byte, lemma_find_byte, rd_u32, scan_byte, u32_le};

verus! {

/// First member record.
pub const REC_OFF: usize = 18;
/// Bytes per member record.
pub const REC_STRIDE: usize = 44;

/// The decoded roster.
#[derive(Debug, Clone, PartialEq, Eq)]
pub struct GroupRoster {
    pub group_id: u32,
    /// Member names in wire order (may include the local player); empty
    /// when solo.
    pub members: Vec<String>,
}

/// Why a roster did not decode.
#[derive(Debug, Clone, Copy, PartialEq, Eq, Structural)]
pub enum GroupRosterError {
    /// Under 12 bytes; carries the length.
    Short(usize),
}

/// First offset at or after `p` holding a non-NUL byte, or the end.
pub open spec fn skip_nuls(b: Seq<u8>, p: int) -> int
    decreases b.len() - p,
{
    if p < 0 || p >= b.len() {
        b.len() as int
    } else if b[p] != 0 {
        p
    } else {
        skip_nuls(b, p + 1)
    }
}

/// The name span `(start, end)` read for member record `r`.
pub open spec fn member_span(b: Seq<u8>, r: int) -> (int, int) {
    let s = skip_nuls(b, 18 + 44 * r);
    (s, find_byte(b, s, 0))
}

/// Name spans of the non-empty members among records `0..k` that start
/// inside the payload.
pub open spec fn member_spans(b: Seq<u8>, k: nat) -> Seq<(int, int)>
    decreases k,
{
    if k == 0 {
        Seq::empty()
    } else {
        let prev = member_spans(b, (k - 1) as nat);
        let sp = member_span(b, k - 1);
        if 18 + 44 * (k - 1) < b.len() && sp.1 > sp.0 {
            prev.push(sp)
        } else {
            prev
        }
    }
}

proof fn lemma_skip_nuls(b: Seq<u8>, p: int)
    requires
        0 <= p <= b.len(),
    ensures
        p <= skip_nuls(b, p) <= b.len(),
    decreases b.len() - p,
{
    if p < b.len() && b[p] == 0 {
        lemma_skip_nuls(b, p + 1);
    }
}

/// Past the payload, no later record adds a member.
proof fn lemma_member_spans_stop(b: Seq<u8>, k: nat, n: nat)
    requires
        k <= n,
        18 + 44 * k >= b.len(),
    ensures
        member_spans(b, n) == member_spans(b, k),
    decreases n - k,
{
    if n > k {
        lemma_member_spans_stop(b, k, (n - 1) as nat);
    }
}

/// Decodes `OP_GroupUpdate`.
pub fn parse_group_roster(bytes: &[u8]) -> (r: Result<GroupRoster, GroupRosterError>)
    ensures
        bytes@.len() < 12 ==> r == Err::<GroupRoster, GroupRosterError>(
            GroupRosterError::Short(bytes@.len() as usize),
        ),
        bytes@.len() >= 12 ==> (r matches Ok(g) && g.group_id == u32_le(bytes@, 0) && {
            let count = u32_le(bytes@, 4);
            &&& count < 2 ==> g.members@.len() == 0
            &&& count >= 2 ==> {
                let spans = member_spans(bytes@, count as nat);
                &&& g.members@.len() == spans.len()
                &&& forall|i: int|
                    0 <= i < spans.len() ==> (#[trigger] g.members@[i])@ == utf8_lossy(
                        bytes@.subrange(spans[i].0, spans[i].1),
                    )
            }
            &&& forall|i: int|
                0 <= i < g.members@.len() ==> (#[trigger] g.members@[i])@.len() > 0
                    && no_nul_chars(g.members@[i]@)
        }),
{
    if bytes.len() < 12 {
        return Err(GroupRosterError::Short(bytes.len()));
    }
    let group_id = rd_u32(bytes, 0);
    let count = rd_u32(bytes, 4);
    if count < 2 {
        return Ok(GroupRoster { group_id, members: Vec::new() });
    }
    let mut members: Vec<String> = Vec::new();
    let mut r: u32 = 0;
    let mut off: usize = REC_OFF;
    while r < count
        invariant_except_break
            r < count ==> off == 18 + 44 * r,
        invariant
            r <= count,
            bytes@.len() >= 12,
            members@.len() == member_spans(bytes@, r as nat).len(),
            forall|i: int|
                0 <= i < members@.len() ==> (#[trigger] members@[i])@ == utf8_lossy(
                    bytes@.subrange(
                        member_spans(bytes@, r as nat)[i].0,
                        member_spans(bytes@, r as nat)[i].1,
                    ),
                ),
            forall|i: int|
                0 <= i < members@.len() ==> (#[trigger] members@[i])@.len() > 0 && no_nul_chars(
                    members@[i]@,
                ),
        ensures
            members@.len() == member_spans(bytes@, count as nat).len(),
            forall|i: int|
                0 <= i < members@.len() ==> (#[trigger] members@[i])@ == utf8_lossy(
                    bytes@.subrange(
                        member_spans(bytes@, count as nat)[i].0,
                        member_spans(bytes@, count as nat)[i].1,
                    ),
                ),
            forall|i: int|
                0 <= i < members@.len() ==> (#[trigger] members@[i])@.len() > 0 && no_nul_chars(
                    members@[i]@,
                ),
        decreases count - r,
    {
        if off >= bytes.len() {
            proof {
                lemma_member_spans_stop(bytes@, r as nat, count as nat);
            }
            break;
        }
        let mut p = off;
        while p < bytes.len() && bytes[p] == 0
            invariant
                off <= p <= bytes@.len(),
                skip_nuls(bytes@, p as int) == skip_nuls(bytes@, off as int),
            decreases bytes@.len() - p,
        {
            p = p + 1;
        }
        let start = p;
        let end = scan_byte(bytes, start, 0);
        if end > start {
            proof {
                lemma_find_byte(bytes@, start as int, 0);
            }
            members.push(lossy_string(&bytes[start..end]));
        }
        r = r + 1;
        if r < count {
            if bytes.len() - off <= REC_STRIDE {
                proof {
                    lemma_member_spans_stop(bytes@, r as nat, count as nat);
                }
                break;
            }
            off = off + REC_STRIDE;
        }
    }
    Ok(GroupRoster { group_id, members })
}

} // verus!
