//! `OP_SpawnDoor`: `count × 132`-byte door rows; this decodes one row.
//!
//! ```text
//!   @0  char name[32]   @32 f32 y   @36 f32 x   @40 f32 z   @44 f32 heading
//!   @48 u32 incline     @52 20-byte copy of the five above (skipped)
//!   @72 u32 size        @80 u8 doorId  @81 u8 opentype  @82 u8 spawnstate
//!   @83 u8 invertstate  @84 u32 zonePoint  @88 44 bytes unknown
//! ```
//! Floats are kept as their IEEE-754 bit patterns.
use vstd::prelude::*;
use crate::text::{cstr_bytes, cstr_field, utf8_lossy};
use crate::wire::{rd_u32, u32_le};

verus! {

/// Row size, and the stride of the door array.
pub const PAYLOAD_LEN: usize = 132;

/// A decoded door row.
#[derive(Debug, Clone, PartialEq, Eq)]
pub struct Door {
    pub name: String,
    pub y_bits: u32,
    pub x_bits: u32,
    pub z_bits: u32,
    pub heading_bits: u32,
    pub incline: u32,
    pub size: u32,
    pub door_id: u8,
    pub opentype: u8,
    pub spawnstate: u8,
    pub invertstate: u8,
    pub zone_point: u32,
}

/// Why a door row did not decode.
#[derive(Debug, Clone, Copy, PartialEq, Eq, Structural)]
pub enum DoorError {
    /// Not exactly [`PAYLOAD_LEN`] bytes; carries the length.
    BadLength(usize),
}

/// `d` is the door row `b`.
pub open spec fn door_matches(d: Door, b: Seq<u8>) -> bool {
    &&& d.name@ == utf8_lossy(cstr_bytes(b.subrange(0, 32)))
    &&& d.y_bits == u32_le(b, 32)
    &&& d.x_bits == u32_le(b, 36)
    &&& d.z_bits == u32_le(b, 40)
    &&& d.heading_bits == u32_le(b, 44)
    &&& d.incline == u32_le(b, 48)
    &&& d.size == u32_le(b, 72)
    &&& d.door_id == b[80]
    &&& d.opentype == b[81]
    &&& d.spawnstate == b[82]
    &&& d.invertstate == b[83]
    &&& d.zone_point == u32_le(b, 84)
}

/// Decodes one `OP_SpawnDoor` row.
pub fn parse_door(bytes: &[u8]) -> (r: Result<Door, DoorError>)
    ensures
        bytes@.len() != PAYLOAD_LEN ==> r == Err::<Door, DoorError>(
            DoorError::BadLength(bytes@.len() as usize),
        ),
        bytes@.len() == PAYLOAD_LEN ==> (r matches Ok(d) && door_matches(d, bytes@)),
{
    if bytes.len() != PAYLOAD_LEN {
        return Err(DoorError::BadLength(bytes.len()));
    }
    Ok(
        Door {
            name: cstr_field(&bytes[0..32]),
            y_bits: rd_u32(bytes, 32),
            x_bits: rd_u32(bytes, 36),
            z_bits: rd_u32(bytes, 40),
            heading_bits: rd_u32(bytes, 44),
            incline: rd_u32(bytes, 48),
            size: rd_u32(bytes, 72),
            door_id: bytes[80],
            opentype: bytes[81],
            spawnstate: bytes[82],
            invertstate: bytes[83],
            zone_point: rd_u32(bytes, 84),
        },
    )
}

} // verus!
