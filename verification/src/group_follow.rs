//! `OP_GroupFollow`: a 168-byte record; the invitee's 64-byte NUL-padded name
//! at 64 and their level, a u32, at 132.
use vstd::prelude::*;
use crate::text::{cstr_bytes, cstr_field, utf8_lossy};
use crate::wire::{rd_u32, u32_le};

verus! {

/// Record size.
pub const STRUCT_LEN: usize = 168;

/// Who joined, and at what level.
#[derive(Debug, Clone, PartialEq, Eq)]
pub struct GroupFollow {
    pub name: String,
    pub level: u32,
}

/// Why a follow notice did not decode.
#[derive(Debug, Clone, Copy, PartialEq, Eq, Structural)]
pub enum GroupFollowError {
    /// At least the first count was needed; the second arrived.
    BadLength(usize, usize),
}

/// Decodes `OP_GroupFollow`.
pub fn parse_group_follow(bytes: &[u8]) -> (r: Result<GroupFollow, GroupFollowError>)
    ensures
        bytes@.len() < 168 ==> r == Err::<GroupFollow, GroupFollowError>(
            GroupFollowError::BadLength(168, bytes@.len() as usize),
        ),
        bytes@.len() >= 168 ==> (r matches Ok(g) && g.name@ == utf8_lossy(
            cstr_bytes(bytes@.subrange(64, 128)),
        ) && g.level == u32_le(bytes@, 132)),
{
    if bytes.len() < STRUCT_LEN {
        return Err(GroupFollowError::BadLength(STRUCT_LEN, bytes.len()));
    }
    Ok(GroupFollow { name: cstr_field(&bytes[64..128]), level: rd_u32(bytes, 132) })
}

} // verus!
