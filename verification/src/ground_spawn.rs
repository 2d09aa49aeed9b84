//! `OP_GroundSpawn`: a 32-byte ground-drop placement record, carrying the
//! object's id and world position only (the item itself arrives separately).
//!
//! ```text
//!   /*0000*/ u32  dropId
//!   /*0004*/ f32  x
//!   /*0008*/ f32  y
//!   /*0012*/ f32  z
//!   /*0016*/ f32  heading
//!   /*0020*/ 12 bytes pad
//! ```
//! Positions are kept as their IEEE-754 bit patterns (`f32::from_bits`
//! gives the value); the model name is not carried and is surfaced empty.
use vstd::prelude::*;
use crate::wire::{rd_u32, u32_le};

verus! {

/// Width of the legacy model-name field.
pub const ID_FILE_LEN: usize = 30;
/// Bytes read: the id and four floats.
pub const PAYLOAD_MIN: usize = 20;

/// A decoded ground drop.
#[derive(Debug, Clone, PartialEq, Eq)]
pub struct GroundSpawn {
    pub drop_id: u32,
    /// Empty: the model name is not carried here.
    pub id_file: String,
    pub heading_bits: u32,
    pub y_bits: u32,
    pub x_bits: u32,
    pub z_bits: u32,
    /// Bytes consumed from the input.
    pub bytes_consumed: u32,
}

/// Why a ground drop did not decode.
#[derive(Debug, Clone, Copy, PartialEq, Eq, Structural)]
pub enum GroundSpawnError {
    /// Truncated at this length; this many bytes were needed.
    Truncated(usize, usize),
    /// The model name is not NUL-terminated.
    UnterminatedText,
}

/// Decodes `OP_GroundSpawn`; bytes past the fourth float are ignored.
pub fn parse_ground_spawn(bytes: &[u8]) -> (r: Result<GroundSpawn, GroundSpawnError>)
    ensures
        bytes@.len() < 20 ==> r == Err::<GroundSpawn, GroundSpawnError>(
            GroundSpawnError::Truncated(bytes@.len() as usize, 20),
        ),
        bytes@.len() >= 20 ==> (r matches Ok(g) && g.drop_id == u32_le(bytes@, 0) && g.x_bits
            == u32_le(bytes@, 4) && g.y_bits == u32_le(bytes@, 8) && g.z_bits == u32_le(bytes@, 12)
            && g.heading_bits == u32_le(bytes@, 16) && g.id_file@.len() == 0 && g.bytes_consumed
            == 20),
{
    if bytes.len() < PAYLOAD_MIN {
        return Err(GroundSpawnError::Truncated(bytes.len(), PAYLOAD_MIN));
    }
    Ok(
        GroundSpawn {
            drop_id: rd_u32(bytes, 0),
            id_file: String::new(),
            heading_bits: rd_u32(bytes, 16),
            y_bits: rd_u32(bytes, 8),
            x_bits: rd_u32(bytes, 4),
            z_bits: rd_u32(bytes, 12),
            bytes_consumed: 20,
        },
    )
}

} // verus!
