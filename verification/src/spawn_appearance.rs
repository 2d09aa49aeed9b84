//! `OP_SpawnAppearance`: a 24-byte record with every field a `u32`.
//!
//! ```text
//!   /*0000*/ u32 spawnId
//!   /*0004*/ u32 type       6 = pose (100 stand / 110 sit / 111 duck)
//!   /*0008*/ u32 value
//!   /*0012*/ u32 params[3]  zero on nearly every packet
//! ```
//! The raw triple is surfaced; interpretation is the caller's.
use vstd::prelude::*;
use crate::wire::{rd_u32, u32_le};

verus! {

/// Payload size.
pub const PAYLOAD_LEN: usize = 24;

/// A decoded appearance change.
#[derive(Debug, Clone, Copy, PartialEq, Eq, Structural)]
pub struct SpawnAppearance {
    pub spawn_id: u32,
    /// The appearance type.
    pub kind: u32,
    /// Type-specific value.
    pub parameter: u32,
}

/// Why an appearance change did not decode.
#[derive(Debug, Clone, Copy, PartialEq, Eq, Structural)]
pub enum SpawnAppearanceError {
    /// Not exactly [`PAYLOAD_LEN`] bytes; carries the length.
    BadLength(usize),
}

/// Decodes `OP_SpawnAppearance`.
pub fn parse_spawn_appearance(bytes: &[u8]) -> (r: Result<SpawnAppearance, SpawnAppearanceError>)
    ensures
        bytes@.len() != PAYLOAD_LEN ==> r == Err::<SpawnAppearance, SpawnAppearanceError>(
            SpawnAppearanceError::BadLength(bytes@.len() as usize),
        ),
        bytes@.len() == PAYLOAD_LEN ==> r == Ok::<SpawnAppearance, SpawnAppearanceError>(
            SpawnAppearance {
                spawn_id: u32_le(bytes@, 0),
                kind: u32_le(bytes@, 4),
                parameter: u32_le(bytes@, 8),
            },
        ),
{
    if bytes.len() != PAYLOAD_LEN {
        return Err(SpawnAppearanceError::BadLength(bytes.len()));
    }
    Ok(
        SpawnAppearance {
            spawn_id: rd_u32(bytes, 0),
            kind: rd_u32(bytes, 4),
            parameter: rd_u32(bytes, 8),
        },
    )
}

} // verus!
