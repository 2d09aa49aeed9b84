//! `OP_CastSpell` (client to server): a 44-byte cast request.
//!
//! ```text
//!   /*@0*/  i32  slot          gem slot
//!   /*@4*/  u32  spellId
//!   /*@8*/  u8[10]             0xff filler
//!   /*@18*/ u32  targetId      0 when cast with no target
//!   /*@22*/ u32                per-spell constant, role unmapped
//!   /*@26*/ ...                zero through @43, except a 1 at @31
//! ```
use vstd::prelude::*;
use crate::wire::{as_i32, rd_u32, to_i32, u32_le};

verus! {

/// Payload size.
pub const PAYLOAD_LEN: usize = 44;

/// A decoded cast request.
#[derive(Debug, Clone, Copy, PartialEq, Eq, Structural)]
pub struct StartCast {
    pub slot: i32,
    pub spell_id: u32,
    pub target_id: u32,
}

/// Why a cast request did not decode.
#[derive(Debug, Clone, Copy, PartialEq, Eq, Structural)]
pub enum StartCastError {
    /// Not exactly [`PAYLOAD_LEN`] bytes; carries the length.
    BadLength(usize),
}

/// Decodes `OP_CastSpell`.
pub fn parse_start_cast(bytes: &[u8]) -> (r: Result<StartCast, StartCastError>)
    ensures
        bytes@.len() != PAYLOAD_LEN ==> r == Err::<StartCast, StartCastError>(
            StartCastError::BadLength(bytes@.len() as usize),
        ),
        bytes@.len() == PAYLOAD_LEN ==> r == Ok::<StartCast, StartCastError>(
            StartCast {
                slot: as_i32(u32_le(bytes@, 0)),
                spell_id: u32_le(bytes@, 4),
                target_id: u32_le(bytes@, 18),
            },
        ),
{
    if bytes.len() != PAYLOAD_LEN {
        return Err(StartCastError::BadLength(bytes.len()));
    }
    Ok(
        StartCast {
            slot: to_i32(rd_u32(bytes, 0)),
            spell_id: rd_u32(bytes, 4),
            target_id: rd_u32(bytes, 18),
        },
    )
}

} // verus!
