//! `OP_MobUpdate`: an 18-byte spawn position update.
//!
//! ```text
//!   /*0000*/ u16 spawnId
//!   /*0008*/ u64 y:19@0 | z:19@19 | 7-bit gap | x:19@45   (wire frame)
//!   /*0016*/ u16 pad:3 | heading:12 | pad:1
//! ```
//! Coordinates are signed 19-bit values, converted from fixed point by an
//! arithmetic `>> 3`; fields are named in the map frame. The heading is on a
//! 4096-step circle.
use vstd::prelude::*;
use crate::wire::{bit_field, floor_div, rd_u16, rd_u64, sext, sign_extend, u16_le, u64_le};

verus! {

/// Payload size.
pub const PAYLOAD_LEN: usize = 18;

/// A decoded position update.
#[derive(Debug, Clone, Copy, PartialEq, Eq, Default, Structural)]
pub struct MobUpdate {
    pub spawn_id: u16,
    pub x: i32,
    pub y: i32,
    pub z: i32,
    /// 12-bit facing on a 4096-step circle.
    pub heading: u16,
}

/// Why a position update did not decode.
#[derive(Debug, Clone, Copy, PartialEq, Eq, Structural)]
pub enum ParseError {
    /// Not exactly [`PAYLOAD_LEN`] bytes; carries the length.
    BadLength(usize),
}

/// The coordinate in the 19 bits at `shift` of `w`: sign-extended, then
/// divided by 8 rounding down.
pub open spec fn coord19(w: u64, shift: u64) -> int {
    sign_extend(((w >> shift) & 0x7ffff) as int, 0x40000) / 8
}

/// Decodes `OP_MobUpdate`.
pub fn parse_mob_update(bytes: &[u8]) -> (r: Result<MobUpdate, ParseError>)
    ensures
        bytes@.len() != PAYLOAD_LEN ==> r == Err::<MobUpdate, ParseError>(
            ParseError::BadLength(bytes@.len() as usize),
        ),
        bytes@.len() == PAYLOAD_LEN ==> r == Ok::<MobUpdate, ParseError>(
            MobUpdate {
                spawn_id: u16_le(bytes@, 0),
                x: coord19(u64_le(bytes@, 8), 45) as i32,
                y: coord19(u64_le(bytes@, 8), 0) as i32,
                z: coord19(u64_le(bytes@, 8), 19) as i32,
                heading: ((u16_le(bytes@, 16) >> 3u16) & 0xfff) as u16,
            },
        ),
        r matches Ok(m) ==> m.heading < 4096,
{
    if bytes.len() != PAYLOAD_LEN {
        return Err(ParseError::BadLength(bytes.len()));
    }
    let w = rd_u64(bytes, 8);
    let y = floor_div(sext(bit_field(w, 0, 0x7ffff), 0x40000), 8);
    let z = floor_div(sext(bit_field(w, 19, 0x7ffff), 0x40000), 8);
    let x = floor_div(sext(bit_field(w, 45, 0x7ffff), 0x40000), 8);
    let h = rd_u16(bytes, 16);
    assert((h >> 3u16) & 0xfff < 4096) by (bit_vector);
    Ok(MobUpdate { spawn_id: rd_u16(bytes, 0), x, y, z, heading: (h >> 3u16) & 0xfff })
}

} // verus!
