//! `OP_ClientUpdate` (client to server): the local player's own 42-byte
//! position report, map-frame IEEE floats with no fixed-point packing.
//!
//! ```text
//!   /*0000*/ u16  counter    changes every packet
//!   /*0002*/ u16  spawnId    the local player's (PHANTOM TWIN's) id
//!   /*0004*/ u16  unknown
//!   /*0006*/ u32  animation:10 | pad:22
//!   /*0010*/ f32  deltaY
//!   /*0014*/ f32  deltaX
//!   /*0018*/ u16  heading:11 | pad:5        2048-step circle
//!   /*0020*/ u16  deltaHeading:10 | pad:6
//!   /*0022*/ f32  x
//!   /*0026*/ f32  y
//!   /*0030*/ f32  deltaZ
//!   /*0034*/ f32  z
//!   /*0038*/ u32  flags:20 | pitch:11 | pad:1
//! ```
//! Up to 46 bytes are accepted; bytes past 42 are ignored. Floats are kept as
//! their IEEE-754 bit patterns. `spawnId` is the twin's id, so a host never
//! adopts the player from it.
use vstd::prelude::*;
use crate::wire::{bit_field, rd_u16, rd_u32, sext, sign_extend, u16_le, u32_le};

verus! {

/// Shortest body.
pub const PAYLOAD_LEN: usize = 42;
/// Longest body accepted.
pub const MAX_PAYLOAD_LEN: usize = 46;
/// Full circle in heading units (11 bits).
pub const HEADING_UNITS: u16 = 2048;

/// A decoded self-position report.
#[derive(Debug, Clone, Copy, PartialEq, Eq, Default, Structural)]
pub struct PlayerSelfPos {
    /// The local player's spawn id: the phantom twin's.
    pub spawn_id: u16,
    /// Per-packet counter.
    pub counter: u16,
    pub x_bits: u32,
    pub y_bits: u32,
    pub z_bits: u32,
    pub delta_x_bits: u32,
    pub delta_y_bits: u32,
    pub delta_z_bits: u32,
    /// 11-bit compass value 0..2047.
    pub heading: u16,
    pub delta_heading: i16,
    pub animation: i16,
    /// 11-bit up/down look angle on the same circle.
    pub pitch: u16,
    /// The low 20 bits of the trailing dword.
    pub flags: u32,
}

/// Why a self-position report did not decode.
#[derive(Debug, Clone, Copy, PartialEq, Eq, Structural)]
pub enum PlayerSelfPosError {
    /// Outside 42..=46 bytes; carries the length.
    BadLength(usize),
}

/// `p` is the report `b`, field by field.
pub open spec fn self_pos_matches(p: PlayerSelfPos, b: Seq<u8>) -> bool {
    let tail = u32_le(b, 38);
    &&& p.spawn_id == u16_le(b, 2)
    &&& p.counter == u16_le(b, 0)
    &&& p.x_bits == u32_le(b, 22)
    &&& p.y_bits == u32_le(b, 26)
    &&& p.z_bits == u32_le(b, 34)
    &&& p.delta_x_bits == u32_le(b, 14)
    &&& p.delta_y_bits == u32_le(b, 10)
    &&& p.delta_z_bits == u32_le(b, 30)
    &&& p.heading == u16_le(b, 18) & 0x7ff
    &&& p.delta_heading == sign_extend((u16_le(b, 20) & 0x3ff) as int, 0x200)
    &&& p.animation == sign_extend((u32_le(b, 6) & 0x3ff) as int, 0x200)
    &&& p.pitch == (tail >> 20u32) & 0x7ff
    &&& p.flags == tail & 0xfffff
}

/// Decodes the self-position report.
pub fn parse_player_self_pos(bytes: &[u8]) -> (r: Result<PlayerSelfPos, PlayerSelfPosError>)
    ensures
        !(PAYLOAD_LEN <= bytes@.len() <= MAX_PAYLOAD_LEN) ==> r == Err::<PlayerSelfPos, PlayerSelfPosError>(
            PlayerSelfPosError::BadLength(bytes@.len() as usize),
        ),
        PAYLOAD_LEN <= bytes@.len() <= MAX_PAYLOAD_LEN ==> (r matches Ok(p) && self_pos_matches(p, bytes@)),
        r matches Ok(p) ==> p.heading < HEADING_UNITS && p.pitch < 2048,
{
    if bytes.len() < PAYLOAD_LEN || bytes.len() > MAX_PAYLOAD_LEN {
        return Err(PlayerSelfPosError::BadLength(bytes.len()));
    }
    let tail = rd_u32(bytes, 38);
    let h = rd_u16(bytes, 18);
    let dh = rd_u16(bytes, 20);
    let anim = rd_u32(bytes, 6);
    let pitch = bit_field(tail as u64, 20, 0x7ff);
    assert((tail as u64 >> 20u64) & 0x7ff == (tail >> 20u32) & 0x7ff) by (bit_vector);
    let flags = tail & 0xfffff;
    assert(h & 0x7ff <= 0x7ff) by (bit_vector);
    assert(dh & 0x3ff <= 0x3ff) by (bit_vector);
    assert(anim & 0x3ff <= 0x3ff) by (bit_vector);
    Ok(
        PlayerSelfPos {
            spawn_id: rd_u16(bytes, 2),
            counter: rd_u16(bytes, 0),
            x_bits: rd_u32(bytes, 22),
            y_bits: rd_u32(bytes, 26),
            z_bits: rd_u32(bytes, 34),
            delta_x_bits: rd_u32(bytes, 14),
            delta_y_bits: rd_u32(bytes, 10),
            delta_z_bits: rd_u32(bytes, 30),
            heading: h & 0x7ff,
            delta_heading: sext((dh & 0x3ff) as u64, 0x200) as i16,
            animation: sext((anim & 0x3ff) as u64, 0x200) as i16,
            pitch: pitch as u16,
            flags,
        },
    )
}

} // verus!
