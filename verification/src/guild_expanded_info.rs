//! `OP_ExpandedGuildInfo`: a tagged union whose `action` u32 at offset 0
//! selects the payload shape. Only `action == 3`, one guild rank name per
//! packet, is decoded:
//!
//! ```text
//!  @0   u32  action (== 3)
//!  @8   u32  guild_id
//!  @88  u32  rank_index       1-based; the roster member `rank`
//!  @92  char rank_name[48]    NUL-terminated
//! ```
use vstd::prelude::*;
use crate::text::{cstr_bytes, cstr_field, utf8_lossy};
use crate::wire::{rd_u32, u32_le};

verus! {

/// The `action` that carries a rank name.
pub const ACTION_RANK_NAME: u32 = 3;
pub const OFF_GUILD_ID: usize = 8;
pub const OFF_RANK_INDEX: usize = 88;
pub const OFF_RANK_NAME: usize = 92;
pub const RANK_NAME_MAX: usize = 48;

/// What a guild-info packet says; rank fields only for the rank-name action.
#[derive(Debug, Clone, PartialEq, Eq, Default)]
pub struct ExpandedGuildInfo {
    pub action: u32,
    pub guild_id: u32,
    /// 1-based rank ordinal; meaningful only for the rank-name action.
    pub rank_index: u32,
    /// Rank label; empty unless the action is the rank name.
    pub rank_name: String,
}

/// The u32 at `o` when it fits, else 0.
pub open spec fn u32_or_zero(b: Seq<u8>, o: int) -> u32 {
    if o + 4 <= b.len() {
        u32_le(b, o)
    } else {
        0
    }
}

fn u32_at(b: &[u8], o: usize) -> (v: u32)
    requires
        o <= 100,
    ensures
        v == u32_or_zero(b@, o as int),
{
    if b.len() >= o + 4 {
        rd_u32(b, o)
    } else {
        0
    }
}

/// Decodes `OP_ExpandedGuildInfo`; it never fails. `action` and `guild_id`
/// read 0 when the payload is too short for them; the rank fields are filled
/// only for the rank-name action with its index present.
pub fn parse_expanded_guild_info(bytes: &[u8]) -> (i: ExpandedGuildInfo)
    ensures
        i.action == u32_or_zero(bytes@, 0),
        i.guild_id == u32_or_zero(bytes@, 8),
        i.action == 3 && bytes@.len() >= 92 ==> i.rank_index == u32_le(bytes@, 88)
            && i.rank_name@ == utf8_lossy(
            cstr_bytes(bytes@.subrange(92, if bytes@.len() < 140 { bytes@.len() as int } else { 140 })),
        ),
        !(i.action == 3 && bytes@.len() >= 92) ==> i.rank_index == 0 && i.rank_name@.len() == 0,
{
    let action = u32_at(bytes, 0);
    let guild_id = u32_at(bytes, OFF_GUILD_ID);
    if action == ACTION_RANK_NAME && bytes.len() >= OFF_RANK_INDEX + 4 {
        let rank_index = rd_u32(bytes, OFF_RANK_INDEX);
        let end = if bytes.len() < OFF_RANK_NAME + RANK_NAME_MAX {
            bytes.len()
        } else {
            OFF_RANK_NAME + RANK_NAME_MAX
        };
        let rank_name = cstr_field(&bytes[OFF_RANK_NAME..end]);
        ExpandedGuildInfo { action, guild_id, rank_index, rank_name }
    } else {
        ExpandedGuildInfo { action, guild_id, rank_index: 0, rank_name: String::new() }
    }
}

} // verus!
