//! `OP_GroupMemberList`: the group roster broadcast. The leader's record has
//! a capture-dependent width, so rather than a fixed struct the body is
//! scanned for name runs: an uppercase letter followed by letters, digits or
//! `_`, at least 3 long. Raw: may repeat the leader and include the local
//! player; the host dedups and filters.
use vstd::prelude::*;
use crate::text::{latin1, latin1_chars};
use crate::wire::{rd_u32, u32_le};

verus! {

/// The decoded broadcast.
#[derive(Debug, Clone, PartialEq, Eq)]
pub struct GroupMemberList {
    pub group_id: u32,
    pub member_count: u32,
    /// Scanned name runs, in wire order.
    pub names: Vec<String>,
}

/// Why a broadcast did not decode.
#[derive(Debug, Clone, Copy, PartialEq, Eq, Structural)]
pub enum GroupMemberListError {
    /// Under 8 bytes; carries the length.
    Short(usize),
}

/// `A-Z`: where a name may start.
pub open spec fn name_start(c: u8) -> bool {
    0x41 <= c <= 0x5a
}

/// `[0-9A-Za-z_]`: what a name may hold.
pub open spec fn name_byte(c: u8) -> bool {
    (0x30 <= c <= 0x39) || (0x41 <= c <= 0x5a) || (0x61 <= c <= 0x7a) || c == 0x5f
}

/// First offset at or after `p` where a name may start, or the end.
pub open spec fn next_start(b: Seq<u8>, p: int) -> int
    decreases b.len() - p,
{
    if p < 0 || p >= b.len() {
        b.len() as int
    } else if name_start(b[p]) {
        p
    } else {
        next_start(b, p + 1)
    }
}

/// First offset at or after `p` that is not a name byte, or the end.
pub open spec fn run_end(b: Seq<u8>, p: int) -> int
    decreases b.len() - p,
{
    if p < 0 || p >= b.len() {
        b.len() as int
    } else if !name_byte(b[p]) {
        p
    } else {
        run_end(b, p + 1)
    }
}

pub proof fn lemma_next_start(b: Seq<u8>, p: int)
    requires
        0 <= p <= b.len(),
    ensures
        p <= next_start(b, p) <= b.len(),
        next_start(b, p) < b.len() ==> name_start(b[next_start(b, p)]),
    decreases b.len() - p,
{
    if p < b.len() && !name_start(b[p]) {
        lemma_next_start(b, p + 1);
    }
}

pub proof fn lemma_run_end(b: Seq<u8>, p: int)
    requires
        0 <= p <= b.len(),
    ensures
        p <= run_end(b, p) <= b.len(),
    decreases b.len() - p,
{
    if p < b.len() && name_byte(b[p]) {
        lemma_run_end(b, p + 1);
    }
}

/// The name runs `(start, end)` found scanning from `p`, in order.
pub open spec fn name_runs(b: Seq<u8>, p: int) -> Seq<(int, int)>
    decreases b.len() - p,
{
    if p < 0 || p >= b.len() {
        Seq::empty()
    } else {
        let q = next_start(b, p);
        if q >= b.len() {
            Seq::empty()
        } else {
            let r = run_end(b, q + 1);
            proof {
                lemma_next_start(b, p);
                lemma_run_end(b, q + 1);
            }
            if r - q < 3 {
                name_runs(b, r)
            } else {
                seq![(q, r)] + name_runs(b, if r < b.len() { r + 1 } else { r })
            }
        }
    }
}

/// Decodes `OP_GroupMemberList`: the group id, the declared count, and every
/// name run of the body in order.
pub fn parse_group_member_list(bytes: &[u8]) -> (r: Result<GroupMemberList, GroupMemberListError>)
    ensures
        bytes@.len() < 8 ==> r == Err::<GroupMemberList, GroupMemberListError>(
            GroupMemberListError::Short(bytes@.len() as usize),
        ),
        bytes@.len() >= 8 ==> (r matches Ok(g) && {
            let runs = name_runs(bytes@, 8);
            &&& g.group_id == u32_le(bytes@, 0)
            &&& g.member_count == u32_le(bytes@, 4)
            &&& g.names@.len() == runs.len()
            &&& forall|i: int|
                0 <= i < runs.len() ==> (#[trigger] g.names@[i])@ == latin1_chars(
                    bytes@.subrange(runs[i].0, runs[i].1),
                )
        }),
{
    if bytes.len() < 8 {
        return Err(GroupMemberListError::Short(bytes.len()));
    }
    let group_id = rd_u32(bytes, 0);
    let member_count = rd_u32(bytes, 4);
    let n = bytes.len();
    let mut names: Vec<String> = Vec::new();
    let mut pos: usize = 8;
    let ghost mut done: Seq<(int, int)> = Seq::empty();
    while pos < n
        invariant
            n == bytes@.len(),
            8 <= pos <= n,
            names@.len() == done.len(),
            name_runs(bytes@, 8) == done + name_runs(bytes@, pos as int),
            forall|i: int|
                0 <= i < done.len() ==> (#[trigger] names@[i])@ == latin1_chars(
                    bytes@.subrange(done[i].0, done[i].1),
                ),
        decreases n - pos,
    {
        let ghost p0 = pos as int;
        while pos < n && !(0x41 <= bytes[pos] && bytes[pos] <= 0x5a)
            invariant
                n == bytes@.len(),
                p0 <= pos <= n,
                next_start(bytes@, pos as int) == next_start(bytes@, p0),
            decreases n - pos,
        {
            pos = pos + 1;
        }
        if pos >= n {
            proof {
                assert(name_runs(bytes@, p0) == Seq::<(int, int)>::empty());
                assert(done + Seq::<(int, int)>::empty() =~= done);
                assert(name_runs(bytes@, pos as int) == Seq::<(int, int)>::empty());
            }
        } else {
            let start = pos;
            pos = pos + 1;
            while pos < n && ((0x30 <= bytes[pos] && bytes[pos] <= 0x39) || (0x41 <= bytes[pos]
                && bytes[pos] <= 0x5a) || (0x61 <= bytes[pos] && bytes[pos] <= 0x7a) || bytes[pos]
                == 0x5f)
                invariant
                    n == bytes@.len(),
                    start < pos <= n,
                    run_end(bytes@, pos as int) == run_end(bytes@, start + 1),
                decreases n - pos,
            {
                pos = pos + 1;
            }
            if pos - start >= 3 {
                let name = latin1(&bytes[start..pos]);
                names.push(name);
                proof {
                    let seg = seq![(start as int, pos as int)];
                    assert(done.push((start as int, pos as int)) + name_runs(
                        bytes@,
                        if pos < n { pos + 1 } else { pos as int },
                    ) =~= done + (seg + name_runs(
                        bytes@,
                        if pos < n { pos + 1 } else { pos as int },
                    )));
                    done = done.push((start as int, pos as int));
                }
                if pos < n {
                    pos = pos + 1;
                }
            }
        }
    }
    Ok(GroupMemberList { group_id, member_count, names })
}

} // verus!
