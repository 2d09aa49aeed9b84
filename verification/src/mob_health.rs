//! `OP_MobHealth`: a fixed 6-byte record `{u16 spawnId@0, i32 hpPercent@2}`;
//! the HP is a percentage (0..100), not raw HP.
use vstd::prelude::*;
use crate::wire::{as_i32, rd_u16, rd_u32, to_i32, u16_le, u32_le};

verus! {

/// Payload size.
pub const PAYLOAD_LEN: usize = 6;

/// A decoded health update.
#[derive(Debug, Clone, Copy, PartialEq, Eq, Structural)]
pub struct MobHealth {
    pub spawn_id: u16,
    pub hp_percent: i32,
}

/// Why a health update did not decode.
#[derive(Debug, Clone, Copy, PartialEq, Eq, Structural)]
pub enum MobHealthError {
    /// Not exactly [`PAYLOAD_LEN`] bytes; carries the length.
    BadLength(usize),
}

/// Decodes `OP_MobHealth`.
pub fn parse_mob_health(bytes: &[u8]) -> (r: Result<MobHealth, MobHealthError>)
    ensures
        bytes@.len() != 6 ==> r == Err::<MobHealth, MobHealthError>(
            MobHealthError::BadLength(bytes@.len() as usize),
        ),
        bytes@.len() == 6 ==> r == Ok::<MobHealth, MobHealthError>(
            MobHealth { spawn_id: u16_le(bytes@, 0), hp_percent: as_i32(u32_le(bytes@, 2)) },
        ),
{
    if bytes.len() != PAYLOAD_LEN {
        return Err(MobHealthError::BadLength(bytes.len()));
    }
    Ok(MobHealth { spawn_id: rd_u16(bytes, 0), hp_percent: to_i32(rd_u32(bytes, 2)) })
}

} // verus!
