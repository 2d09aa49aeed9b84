//! `OP_GroupDisband`: two 64-byte NUL-padded names, the local player's at 0
//! and the departing member's at 64. Seen at 152 and 168 bytes; only the
//! first 128 are read.
use vstd::prelude::*;
use crate::text::{cstr_bytes, cstr_field, utf8_lossy};

verus! {

/// The names read from a disband notice.
#[derive(Debug, Clone, PartialEq, Eq)]
pub struct GroupDisband {
    pub yourname: String,
    pub membername: String,
}

/// Why a disband notice did not decode.
#[derive(Debug, Clone, Copy, PartialEq, Eq, Structural)]
pub enum GroupDisbandError {
    /// At least the first count was needed; the second arrived.
    BadLength(usize, usize),
}

/// Decodes `OP_GroupDisband`.
pub fn parse_group_disband(bytes: &[u8]) -> (r: Result<GroupDisband, GroupDisbandError>)
    ensures
        bytes@.len() < 128 ==> r == Err::<GroupDisband, GroupDisbandError>(
            GroupDisbandError::BadLength(128, bytes@.len() as usize),
        ),
        bytes@.len() >= 128 ==> (r matches Ok(g) && g.yourname@ == utf8_lossy(
            cstr_bytes(bytes@.subrange(0, 64)),
        ) && g.membername@ == utf8_lossy(cstr_bytes(bytes@.subrange(64, 128)))),
{
    if bytes.len() < 128 {
        return Err(GroupDisbandError::BadLength(128, bytes.len()));
    }
    Ok(
        GroupDisband {
            yourname: cstr_field(&bytes[0..64]),
            membername: cstr_field(&bytes[64..128]),
        },
    )
}

} // verus!
