//! `OP_Action`, the alternative 88-byte record: the field set of the
//! ordinary action record with a longer trailing placeholder.
//!
//! ```text
//!   @0 u16 target   @2 u16 source   @4 u16 spell   @12 u8 level   @56 u8 type
//! ```
use vstd::prelude::*;
use crate::wire::{rd_u16, u16_le};

verus! {

/// Payload size.
pub const PAYLOAD_LEN: usize = 88;

/// A decoded action.
#[derive(Debug, Clone, Copy, PartialEq, Eq, Structural)]
pub struct ActionAlt {
    pub target: u16,
    pub source: u16,
    /// Unsigned: modern spell ids exceed 32767.
    pub spell: u16,
    pub level: u8,
    pub kind: u8,
}

/// Why an action did not decode.
#[derive(Debug, Clone, Copy, PartialEq, Eq, Structural)]
pub enum ActionAltError {
    /// Not exactly [`PAYLOAD_LEN`] bytes; carries the length.
    BadLength(usize),
}

/// Decodes the 88-byte `OP_Action` record.
pub fn parse_action_alt(bytes: &[u8]) -> (r: Result<ActionAlt, ActionAltError>)
    ensures
        bytes@.len() != PAYLOAD_LEN ==> r == Err::<ActionAlt, ActionAltError>(
            ActionAltError::BadLength(bytes@.len() as usize),
        ),
        bytes@.len() == PAYLOAD_LEN ==> r == Ok::<ActionAlt, ActionAltError>(
            ActionAlt {
                target: u16_le(bytes@, 0),
                source: u16_le(bytes@, 2),
                spell: u16_le(bytes@, 4),
                level: bytes@[12],
                kind: bytes@[56],
            },
        ),
{
    if bytes.len() != PAYLOAD_LEN {
        return Err(ActionAltError::BadLength(bytes.len()));
    }
    Ok(
        ActionAlt {
            target: rd_u16(bytes, 0),
            source: rd_u16(bytes, 2),
            spell: rd_u16(bytes, 4),
            level: bytes[12],
            kind: bytes[56],
        },
    )
}

} // verus!
