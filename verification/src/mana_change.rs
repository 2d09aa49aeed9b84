//! `OP_ManaChange`: a fixed 20-byte record
//! `{i32 newMana@0, i32 curEndurance@4, i32 spellId@8, ...}`. The endurance
//! word rides along as `max_mana`, raw and unused by the host.
use vstd::prelude::*;
use crate::wire::{as_i32, rd_u32, to_i32, u32_le};

verus! {

/// Payload size.
pub const PAYLOAD_LEN: usize = 20;

/// A decoded mana change.
#[derive(Debug, Clone, Copy, PartialEq, Eq, Structural)]
pub struct ManaChange {
    pub new_mana: i32,
    pub max_mana: i32,
    pub spell_id: i32,
}

/// Why a mana change did not decode.
#[derive(Debug, Clone, Copy, PartialEq, Eq, Structural)]
pub enum ManaChangeError {
    /// Not exactly [`PAYLOAD_LEN`] bytes; carries the length.
    BadLength(usize),
}

/// Decodes `OP_ManaChange`.
pub fn parse_mana_change(bytes: &[u8]) -> (r: Result<ManaChange, ManaChangeError>)
    ensures
        bytes@.len() != PAYLOAD_LEN ==> r == Err::<ManaChange, ManaChangeError>(
            ManaChangeError::BadLength(bytes@.len() as usize),
        ),
        bytes@.len() == PAYLOAD_LEN ==> r == Ok::<ManaChange, ManaChangeError>(
            ManaChange {
                new_mana: as_i32(u32_le(bytes@, 0)),
                max_mana: as_i32(u32_le(bytes@, 4)),
                spell_id: as_i32(u32_le(bytes@, 8)),
            },
        ),
{
    if bytes.len() != PAYLOAD_LEN {
        return Err(ManaChangeError::BadLength(bytes.len()));
    }
    Ok(
        ManaChange {
            new_mana: to_i32(rd_u32(bytes, 0)),
            max_mana: to_i32(rd_u32(bytes, 4)),
            spell_id: to_i32(rd_u32(bytes, 8)),
        },
    )
}

} // verus!
