//! Small fixed-offset Legends records that decode through [`DecodeError`].
use vstd::prelude::*;
use crate::decode_error::DecodeError;
use crate::wire::{as_i32, rd_u16, rd_u32, to_i32, u16_le, u32_le};

verus! {

/// Bytes of an `OP_Consider` payload, in either direction.
pub const CONSIDER_LEN: usize = 24;

/// A `/consider` result. Legends does not carry the level, so it reads 0.
#[derive(Debug, Clone, Copy, PartialEq, Eq, Structural)]
pub struct Consider {
    pub player_id: u32,
    pub target_id: u32,
    pub faction: i32,
    pub level: i32,
}

/// `OP_Consider`: 24 bytes `{u32 self, u32 target, u32 faction, u32 = 7, pad,
/// pad}`.
pub fn parse_consider(b: &[u8]) -> (r: Result<Consider, DecodeError>)
    ensures
        b@.len() != CONSIDER_LEN ==> r == Err::<Consider, DecodeError>(
            DecodeError::BadLength(b@.len() as usize),
        ),
        b@.len() == CONSIDER_LEN ==> r == Ok::<Consider, DecodeError>(
            Consider {
                player_id: u32_le(b@, 0),
                target_id: u32_le(b@, 4),
                faction: as_i32(u32_le(b@, 8)),
                level: 0,
            },
        ),
{
    if b.len() != CONSIDER_LEN {
        return Err(DecodeError::BadLength(b.len()));
    }
    Ok(
        Consider {
            player_id: rd_u32(b, 0),
            target_id: rd_u32(b, 4),
            faction: to_i32(rd_u32(b, 8)),
            level: 0,
        },
    )
}

/// A spawn started casting.
#[derive(Debug, Clone, Copy, PartialEq, Eq, Structural)]
pub struct BeginCast {
    pub caster_id: u32,
    pub spell_id: u32,
    pub cast_time_ms: u32,
}

/// `OP_BeginCast` (19 bytes): spellId u32@0, casterSpawnId u16@4,
/// castTime_ms u16@6. Spell ids exceed 16 bits, so the id is a full u32.
pub fn parse_begin_cast(b: &[u8]) -> (r: Result<BeginCast, DecodeError>)
    ensures
        b@.len() < 8 ==> r == Err::<BeginCast, DecodeError>(DecodeError::Short(b@.len() as usize)),
        b@.len() >= 8 ==> r == Ok::<BeginCast, DecodeError>(
            BeginCast {
                spell_id: u32_le(b@, 0),
                caster_id: u16_le(b@, 4) as u32,
                cast_time_ms: u16_le(b@, 6) as u32,
            },
        ),
{
    if b.len() < 8 {
        return Err(DecodeError::Short(b.len()));
    }
    Ok(
        BeginCast {
            spell_id: rd_u32(b, 0),
            caster_id: rd_u16(b, 4) as u32,
            cast_time_ms: rd_u16(b, 6) as u32,
        },
    )
}

/// The head of one AA ability-rank definition.
#[derive(Debug, Clone, Copy, PartialEq, Eq, Structural)]
pub struct AaTableEntry {
    pub desc_id: u32,
    pub title_sid: u32,
}

/// `OP_SendAATable`: of each definition only the 37-byte head matters,
/// `descID`@0 and `titleSID`@13.
pub fn parse_aa_table_entry(b: &[u8]) -> (r: Result<AaTableEntry, DecodeError>)
    ensures
        b@.len() < 37 ==> r == Err::<AaTableEntry, DecodeError>(
            DecodeError::Short(b@.len() as usize),
        ),
        b@.len() >= 37 ==> r == Ok::<AaTableEntry, DecodeError>(
            AaTableEntry { desc_id: u32_le(b@, 0), title_sid: u32_le(b@, 13) },
        ),
{
    if b.len() < 37 {
        return Err(DecodeError::Short(b.len()));
    }
    Ok(AaTableEntry { desc_id: rd_u32(b, 0), title_sid: rd_u32(b, 13) })
}

/// `OP_Stance` / `OP_Invocation` echo: a u32 ability id at 0. The opcode,
/// not the payload, says which one.
pub fn parse_activate_ability(b: &[u8]) -> (r: Result<u32, DecodeError>)
    ensures
        b@.len() < 4 ==> r == Err::<u32, DecodeError>(DecodeError::Short(b@.len() as usize)),
        b@.len() >= 4 ==> r == Ok::<u32, DecodeError>(u32_le(b@, 0)),
{
    if b.len() < 4 {
        Err(DecodeError::Short(b.len()))
    } else {
        Ok(rd_u32(b, 0))
    }
}

} // verus!
