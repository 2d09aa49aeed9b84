//! `OP_MoneyUpdate`: the authoritative carried purse,
//! `{u32 platinum@0, u32 gold@4, u32 silver@8, u32 copper@12, u32 0@16}`.
//! Denominations are NOT normalized on the wire (101 silver has been seen),
//! so totals sum rather than take each to be below 10.
use vstd::prelude::*;
use crate::wire::{rd_u32, u32_le};

verus! {

/// A carried purse, by denomination.
#[derive(Debug, Clone, PartialEq, Eq, Default)]
pub struct MoneyUpdate {
    pub platinum: u32,
    pub gold: u32,
    pub silver: u32,
    pub copper: u32,
}

/// Platinum, gold, silver and copper counts in copper.
pub open spec fn copper_value(platinum: int, gold: int, silver: int, copper: int) -> int {
    platinum * 1000 + gold * 100 + silver * 10 + copper
}

impl MoneyUpdate {
    /// Total in copper, summing the denominations as they are.
    pub fn total_copper(&self) -> (t: u64)
        ensures
            t == copper_value(
                self.platinum as int,
                self.gold as int,
                self.silver as int,
                self.copper as int,
            ),
    {
        self.platinum as u64 * 1000 + self.gold as u64 * 100 + self.silver as u64 * 10
            + self.copper as u64
    }
}

/// Why a purse update did not decode.
#[derive(Debug, Clone, Copy, PartialEq, Eq, Structural)]
pub enum MoneyUpdateError {
    /// Under 16 bytes; carries the length.
    BadLength(usize),
}

/// Decodes `OP_MoneyUpdate`; bytes past the four counts are ignored.
pub fn parse_money_update(bytes: &[u8]) -> (r: Result<MoneyUpdate, MoneyUpdateError>)
    ensures
        bytes@.len() < 16 ==> r == Err::<MoneyUpdate, MoneyUpdateError>(
            MoneyUpdateError::BadLength(bytes@.len() as usize),
        ),
        bytes@.len() >= 16 ==> (r matches Ok(m) && m.platinum == u32_le(bytes@, 0) && m.gold
            == u32_le(bytes@, 4) && m.silver == u32_le(bytes@, 8) && m.copper == u32_le(bytes@, 12)),
{
    if bytes.len() < 16 {
        return Err(MoneyUpdateError::BadLength(bytes.len()));
    }
    Ok(
        MoneyUpdate {
            platinum: rd_u32(bytes, 0),
            gold: rd_u32(bytes, 4),
            silver: rd_u32(bytes, 8),
            copper: rd_u32(bytes, 12),
        },
    )
}

/// The total is additive over denominations: a purse's total is the sum of
/// the totals of any split of its counts, so the order in which coin is
/// counted never matters and nothing relies on a normalized purse.
pub proof fn lemma_copper_value_additive(
    p1: int,
    g1: int,
    s1: int,
    c1: int,
    p2: int,
    g2: int,
    s2: int,
    c2: int,
)
    ensures
        copper_value(p1 + p2, g1 + g2, s1 + s2, c1 + c2) == copper_value(p1, g1, s1, c1)
            + copper_value(p2, g2, s2, c2),
{
}

} // verus!
