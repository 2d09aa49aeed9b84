//! `OP_SpawnRename`: 195 bytes, three 64-byte NUL-padded names (old, old
//! again, new) and 3 placeholder bytes.
use vstd::prelude::*;
use crate::text::{cstr_bytes, cstr_field, utf8_lossy};

verus! {

/// Payload size.
pub const PAYLOAD_LEN: usize = 195;

/// A decoded rename.
#[derive(Debug, Clone, PartialEq, Eq)]
pub struct SpawnRename {
    pub old_name: String,
    /// Identical to `old_name` in every payload seen; kept as sent.
    pub old_name_again: String,
    pub new_name: String,
}

/// Why a rename did not decode.
#[derive(Debug, Clone, Copy, PartialEq, Eq, Structural)]
pub enum SpawnRenameError {
    /// Not exactly [`PAYLOAD_LEN`] bytes; carries the length.
    BadLength(usize),
}

/// The 64-byte name field `k` of a rename.
pub open spec fn rename_field(b: Seq<u8>, k: int) -> Seq<char> {
    utf8_lossy(cstr_bytes(b.subrange(64 * k, 64 * k + 64)))
}

/// Decodes `OP_SpawnRename`.
pub fn parse_spawn_rename(bytes: &[u8]) -> (r: Result<SpawnRename, SpawnRenameError>)
    ensures
        bytes@.len() != 195 ==> r == Err::<SpawnRename, SpawnRenameError>(
            SpawnRenameError::BadLength(bytes@.len() as usize),
        ),
        bytes@.len() == 195 ==> (r matches Ok(s) && s.old_name@ == rename_field(bytes@, 0)
            && s.old_name_again@ == rename_field(bytes@, 1) && s.new_name@ == rename_field(
            bytes@,
            2,
        )),
{
    if bytes.len() != PAYLOAD_LEN {
        return Err(SpawnRenameError::BadLength(bytes.len()));
    }
    Ok(
        SpawnRename {
            old_name: cstr_field(&bytes[0..64]),
            old_name_again: cstr_field(&bytes[64..128]),
            new_name: cstr_field(&bytes[128..192]),
        },
    )
}

} // verus!
