//! One 24-byte zone-point record of `OP_SendZonePoints` (a u32 count, then
//! `count` records, then a 24-byte trailer; the host slices the records).
//!
//! ```text
//!   @0 u32 zoneTrigger  @4 f32 y  @8 f32 x  @12 f32 z  @16 f32 heading
//!   @20 u16 zoneId      @22 u16 zoneInstance
//! ```
//! Floats are kept as their IEEE-754 bit patterns.
use vstd::prelude::*;
use crate::wire::{rd_u16, rd_u32, u16_le, u32_le};

verus! {

/// Record size.
pub const PAYLOAD_LEN: usize = 24;

/// A decoded zone point.
#[derive(Debug, Clone, Copy, PartialEq, Eq, Structural)]
pub struct ZonePoint {
    pub zone_trigger: u32,
    pub y_bits: u32,
    pub x_bits: u32,
    pub z_bits: u32,
    pub heading_bits: u32,
    pub zone_id: u16,
    pub zone_instance: u16,
}

/// Why a zone point did not decode.
#[derive(Debug, Clone, Copy, PartialEq, Eq, Structural)]
pub enum ZonePointError {
    /// Not exactly [`PAYLOAD_LEN`] bytes; carries the length.
    BadLength(usize),
}

/// Decodes one zone-point record.
pub fn parse_zone_point(bytes: &[u8]) -> (r: Result<ZonePoint, ZonePointError>)
    ensures
        bytes@.len() != 24 ==> r == Err::<ZonePoint, ZonePointError>(
            ZonePointError::BadLength(bytes@.len() as usize),
        ),
        bytes@.len() == 24 ==> r == Ok::<ZonePoint, ZonePointError>(
            ZonePoint {
                zone_trigger: u32_le(bytes@, 0),
                y_bits: u32_le(bytes@, 4),
                x_bits: u32_le(bytes@, 8),
                z_bits: u32_le(bytes@, 12),
                heading_bits: u32_le(bytes@, 16),
                zone_id: u16_le(bytes@, 20),
                zone_instance: u16_le(bytes@, 22),
            },
        ),
{
    if bytes.len() != PAYLOAD_LEN {
        return Err(ZonePointError::BadLength(bytes.len()));
    }
    Ok(
        ZonePoint {
            zone_trigger: rd_u32(bytes, 0),
            y_bits: rd_u32(bytes, 4),
            x_bits: rd_u32(bytes, 8),
            z_bits: rd_u32(bytes, 12),
            heading_bits: rd_u32(bytes, 16),
            zone_id: rd_u16(bytes, 20),
            zone_instance: rd_u16(bytes, 22),
        },
    )
}

} // verus!
