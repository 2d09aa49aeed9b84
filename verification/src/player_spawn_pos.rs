//! `OP_ClientUpdate` (server to client): the 28-byte position broadcast for
//! spawns other than the local player.
//!
//! ```text
//!   /*0000*/ u16  spawnId
//!   /*0002*/ u16  unknown          (0 on the wire)
//!   /*0004*/ u32  seq              per-entity counter, wraps at 32768
//!   /*0008*/ i64  animation:10@64 | y:19@74 | deltaZ:13@93 | deltaX:16@106 | pad:6
//!   /*0016*/ i64  deltaHeading:10@128 | x:19@138 | pad:3 | heading:11@160
//!                 | pad:1 | deltaY:13@172 | pad:7
//!   /*0024*/ i32  z:19@192 | pitch:11@211 | pad:2
//! ```
//! Fields are already map-frame; coordinates stay raw (the host applies
//! `>> 3`) and the deltas are raw wire values.
use vstd::prelude::*;
use crate::wire::{bit_field, rd_u16, rd_u32, rd_u64, sext, sign_extend, u16_le, u32_le, u64_le};

verus! {

/// Payload size.
pub const PAYLOAD_LEN: usize = 28;
/// Full circle in heading units (11 bits).
pub const HEADING_UNITS: u16 = 2048;

/// A decoded position broadcast.
#[derive(Debug, Clone, Copy, PartialEq, Eq, Structural)]
pub struct PlayerSpawnPos {
    pub spawn_id: u16,
    /// The u16 at offset 2; 0 on every packet seen.
    pub spawn_id2: u16,
    /// Per-entity update counter, wrapping at 32768.
    pub seq: u32,
    /// Raw 19-bit signed; the host applies `>> 3`.
    pub x: i32,
    pub y: i32,
    pub z: i32,
    /// Raw wire deltas: 16-bit for x, 13-bit for y and z.
    pub delta_x: i32,
    pub delta_y: i32,
    pub delta_z: i32,
    /// Compass value 0..2047; 0 = N, increasing clockwise.
    pub heading: u16,
    pub delta_heading: i16,
    pub animation: i16,
    /// 11-bit up/down look angle on the same circle.
    pub pitch: u16,
}

/// Why a position broadcast did not decode.
#[derive(Debug, Clone, Copy, PartialEq, Eq, Structural)]
pub enum PlayerSpawnPosError {
    /// Not exactly [`PAYLOAD_LEN`] bytes; carries the length.
    BadLength(usize),
}

/// The signed `n`-bit field at `shift` of `w`, sign bit worth `half`.
pub open spec fn sfield(w: u64, shift: u64, mask: u64, half: int) -> int {
    sign_extend(((w >> shift) & mask) as int, half)
}

/// `p` is the broadcast in `b`, field by field.
pub open spec fn spawn_pos_matches(p: PlayerSpawnPos, b: Seq<u8>) -> bool {
    let lo = u64_le(b, 8);
    let hi = u64_le(b, 16);
    let tail = u32_le(b, 24) as u64;
    &&& p.spawn_id == u16_le(b, 0)
    &&& p.spawn_id2 == u16_le(b, 2)
    &&& p.seq == u32_le(b, 4)
    &&& p.x == sfield(hi, 10, 0x7ffff, 0x40000)
    &&& p.y == sfield(lo, 10, 0x7ffff, 0x40000)
    &&& p.z == sfield(tail, 0, 0x7ffff, 0x40000)
    &&& p.delta_x == sfield(lo, 42, 0xffff, 0x8000)
    &&& p.delta_y == sfield(hi, 44, 0x1fff, 0x1000)
    &&& p.delta_z == sfield(lo, 29, 0x1fff, 0x1000)
    &&& p.heading == (hi >> 32u64) & 0x7ff
    &&& p.delta_heading == sfield(hi, 0, 0x3ff, 0x200)
    &&& p.animation == sfield(lo, 0, 0x3ff, 0x200)
    &&& p.pitch == (tail >> 19u64) & 0x7ff
}

/// Decodes the position broadcast.
pub fn parse_player_spawn_pos(bytes: &[u8]) -> (r: Result<PlayerSpawnPos, PlayerSpawnPosError>)
    ensures
        bytes@.len() != PAYLOAD_LEN ==> r == Err::<PlayerSpawnPos, PlayerSpawnPosError>(
            PlayerSpawnPosError::BadLength(bytes@.len() as usize),
        ),
        bytes@.len() == PAYLOAD_LEN ==> (r matches Ok(p) && spawn_pos_matches(p, bytes@)),
        r matches Ok(p) ==> p.heading < HEADING_UNITS && p.pitch < 2048,
{
    if bytes.len() != PAYLOAD_LEN {
        return Err(PlayerSpawnPosError::BadLength(bytes.len()));
    }
    let lo = rd_u64(bytes, 8);
    let hi = rd_u64(bytes, 16);
    let tail = rd_u32(bytes, 24) as u64;
    Ok(
        PlayerSpawnPos {
            spawn_id: rd_u16(bytes, 0),
            spawn_id2: rd_u16(bytes, 2),
            seq: rd_u32(bytes, 4),
            x: sext(bit_field(hi, 10, 0x7ffff), 0x40000),
            y: sext(bit_field(lo, 10, 0x7ffff), 0x40000),
            z: sext(bit_field(tail, 0, 0x7ffff), 0x40000),
            delta_x: sext(bit_field(lo, 42, 0xffff), 0x8000),
            delta_y: sext(bit_field(hi, 44, 0x1fff), 0x1000),
            delta_z: sext(bit_field(lo, 29, 0x1fff), 0x1000),
            heading: bit_field(hi, 32, 0x7ff) as u16,
            delta_heading: sext(bit_field(hi, 0, 0x3ff), 0x200) as i16,
            animation: sext(bit_field(lo, 0, 0x3ff), 0x200) as i16,
            pitch: bit_field(tail, 19, 0x7ff) as u16,
        },
    )
}

} // verus!
