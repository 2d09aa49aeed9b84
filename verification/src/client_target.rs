//! `OP_TargetMouse`: a fixed 4-byte record, the new target's id.
use vstd::prelude::*;
use crate::wire::{rd_u32, u32_le};

verus! {

/// Payload size.
pub const PAYLOAD_LEN: usize = 4;

/// A decoded target change.
#[derive(Debug, Clone, Copy, PartialEq, Eq, Structural)]
pub struct ClientTarget {
    pub new_target: u32,
}

/// Why a target change did not decode.
#[derive(Debug, Clone, Copy, PartialEq, Eq, Structural)]
pub enum ClientTargetError {
    /// Not exactly [`PAYLOAD_LEN`] bytes; carries the length.
    BadLength(usize),
}

/// Decodes `OP_TargetMouse`.
pub fn parse_client_target(bytes: &[u8]) -> (r: Result<ClientTarget, ClientTargetError>)
    ensures
        bytes@.len() != PAYLOAD_LEN ==> r == Err::<ClientTarget, ClientTargetError>(
            ClientTargetError::BadLength(bytes@.len() as usize),
        ),
        bytes@.len() == PAYLOAD_LEN ==> r == Ok::<ClientTarget, ClientTargetError>(
            ClientTarget { new_target: u32_le(bytes@, 0) },
        ),
{
    if bytes.len() != PAYLOAD_LEN {
        return Err(ClientTargetError::BadLength(bytes.len()));
    }
    Ok(ClientTarget { new_target: rd_u32(bytes, 0) })
}

} // verus!
