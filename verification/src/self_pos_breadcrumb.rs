//! `OP_SelfPosEQL` (client to server): the local player's batched movement
//! journal, `N × 17-byte record + 1 trailing byte`.
//!
//! ```text
//!   per record: @0 f32 y   @4 f32 x   @8 f32 z   @12 u8 seq (unused)
//!               @13 u32 ts (monotonic hi-res timer)
//! ```
//! Floats are kept as their IEEE-754 bit patterns.
use vstd::prelude::*;
use crate::wire::{rd_u32, u32_le};

verus! {

/// Bytes per position record.
pub const RECORD_LEN: usize = 17;

/// One position sample.
#[derive(Debug, Clone, Copy, PartialEq, Eq, Structural)]
pub struct BreadcrumbPoint {
    pub x_bits: u32,
    pub y_bits: u32,
    pub z_bits: u32,
    pub ts: u32,
}

/// The samples of one journal, oldest first.
#[derive(Debug, Clone, PartialEq, Eq, Default)]
pub struct SelfPosBreadcrumb {
    pub points: Vec<BreadcrumbPoint>,
}

/// Record `i` of the journal `b`.
pub open spec fn crumb_at(b: Seq<u8>, i: int) -> BreadcrumbPoint {
    let o = 17 * i;
    BreadcrumbPoint {
        x_bits: u32_le(b, o + 4),
        y_bits: u32_le(b, o),
        z_bits: u32_le(b, o + 8),
        ts: u32_le(b, o + 13),
    }
}

/// The journal's shape is whole: at least one record and at most one byte
/// past the last.
pub open spec fn crumbs_whole(len: int) -> bool {
    len / 17 > 0 && len % 17 <= 1
}

/// Decodes the journal into its samples, in order. A payload that is not a
/// whole number of records plus at most one trailing byte yields none.
pub fn parse_self_pos_breadcrumb(b: &[u8]) -> (r: SelfPosBreadcrumb)
    ensures
        !crumbs_whole(b@.len() as int) ==> r.points@.len() == 0,
        crumbs_whole(b@.len() as int) ==> r.points@ == Seq::new(
            (b@.len() / 17) as nat,
            |i: int| crumb_at(b@, i),
        ),
{
    let n = b.len() / RECORD_LEN;
    let rem = b.len() - n * RECORD_LEN;
    if n == 0 || rem > 1 {
        return SelfPosBreadcrumb { points: Vec::new() };
    }
    let mut points: Vec<BreadcrumbPoint> = Vec::new();
    let mut i: usize = 0;
    let len = b.len();
    assert(n * 17 <= len) by (nonlinear_arith)
        requires
            n == len / 17,
    ;
    while i < n
        invariant
            n == b@.len() / 17,
            n * 17 <= b.len(),
            i <= n,
            points@ == Seq::new(i as nat, |k: int| crumb_at(b@, k)),
        decreases n - i,
    {
        proof {
            assert(i * 17 + 17 <= n * 17) by (nonlinear_arith)
                requires
                    i < n,
            ;
        }
        let o = i * RECORD_LEN;
        points.push(
            BreadcrumbPoint {
                x_bits: rd_u32(b, o + 4),
                y_bits: rd_u32(b, o),
                z_bits: rd_u32(b, o + 8),
                ts: rd_u32(b, o + 13),
            },
        );
        i = i + 1;
        assert(points@ =~= Seq::new(i as nat, |k: int| crumb_at(b@, k)));
    }
    SelfPosBreadcrumb { points }
}

} // verus!
