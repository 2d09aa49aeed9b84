//! `OP_LootTransaction`: a subcode-multiplexed corpse-loot channel
//! (subcode u16 @0).
//!
//! ```text
//!   3  C->S 2B / S->C 6B   request + ack, purpose unknown
//!   6  C->S 25B            the client's loot request
//!   5  S->C 16B            coin on the corpse, decoded here
//!   7  S->C 36B            item confirmation, decoded here
//! ```
//! The confirmation: `@4 item id, @8 slot, @12 corpse spawn id, @16 quantity,
//! @20 request sequence, @26 sale proceeds in copper` (all u32). The coin
//! pile: `@3 u32 coin in copper` (genuinely unaligned).
use vstd::prelude::*;
use crate::wire::{rd_u16, rd_u32, u16_le, u32_le};

verus! {

/// Coin-on-the-corpse subcode.
pub const SUBCODE_CORPSE_COIN: u16 = 5;
/// Item confirmation subcode.
pub const SUBCODE_CONFIRM: u16 = 7;

/// A decoded loot transaction.
#[derive(Debug, Clone, Copy, PartialEq, Eq, Default)]
pub struct LootTransaction {
    pub item_id: u32,
    pub slot: u32,
    pub corpse_id: u32,
    pub quantity: u32,
    pub sequence: u32,
    /// Sale proceeds (subcode 7, 0 if unsold) or the corpse pile (subcode 5).
    pub coin_copper: u32,
    /// Subcode-5 corpse pile; the item fields are then 0.
    pub from_corpse: bool,
}

/// Why a loot transaction did not decode.
#[derive(Debug, Clone, Copy, PartialEq, Eq, Structural)]
pub enum LootTransactionError {
    /// The subcode needs `want` bytes or more; `got` arrived.
    Short { subcode: u16, want: usize, got: usize },
    /// Too short to hold the subcode; carries the length.
    NoSubcode(usize),
    /// A subcode that carries no decoded payload.
    Unhandled(u16),
}

/// Decodes `OP_LootTransaction`.
pub fn parse_loot_transaction(bytes: &[u8]) -> (r: Result<LootTransaction, LootTransactionError>)
    ensures
        bytes@.len() < 2 ==> r == Err::<LootTransaction, LootTransactionError>(
            LootTransactionError::NoSubcode(bytes@.len() as usize),
        ),
        bytes@.len() >= 2 ==> {
            let sc = u16_le(bytes@, 0);
            let n = bytes@.len() as usize;
            &&& sc == 5 && n < 7 ==> r == Err::<LootTransaction, LootTransactionError>(
                LootTransactionError::Short { subcode: 5, want: 7, got: n },
            )
            &&& sc == 5 && n >= 7 ==> r == Ok::<LootTransaction, LootTransactionError>(
                LootTransaction {
                    item_id: 0,
                    slot: 0,
                    corpse_id: 0,
                    quantity: 0,
                    sequence: 0,
                    coin_copper: u32_le(bytes@, 3),
                    from_corpse: true,
                },
            )
            &&& sc == 7 && n < 30 ==> r == Err::<LootTransaction, LootTransactionError>(
                LootTransactionError::Short { subcode: 7, want: 30, got: n },
            )
            &&& sc == 7 && n >= 30 ==> r == Ok::<LootTransaction, LootTransactionError>(
                LootTransaction {
                    item_id: u32_le(bytes@, 4),
                    slot: u32_le(bytes@, 8),
                    corpse_id: u32_le(bytes@, 12),
                    quantity: u32_le(bytes@, 16),
                    sequence: u32_le(bytes@, 20),
                    coin_copper: u32_le(bytes@, 26),
                    from_corpse: false,
                },
            )
            &&& sc != 5 && sc != 7 ==> r == Err::<LootTransaction, LootTransactionError>(
                LootTransactionError::Unhandled(sc),
            )
        },
{
    if bytes.len() < 2 {
        return Err(LootTransactionError::NoSubcode(bytes.len()));
    }
    let subcode = rd_u16(bytes, 0);
    if subcode == SUBCODE_CORPSE_COIN {
        if bytes.len() < 7 {
            return Err(LootTransactionError::Short { subcode, want: 7, got: bytes.len() });
        }
        Ok(
            LootTransaction {
                item_id: 0,
                slot: 0,
                corpse_id: 0,
                quantity: 0,
                sequence: 0,
                coin_copper: rd_u32(bytes, 3),
                from_corpse: true,
            },
        )
    } else if subcode == SUBCODE_CONFIRM {
        if bytes.len() < 30 {
            return Err(LootTransactionError::Short { subcode, want: 30, got: bytes.len() });
        }
        Ok(
            LootTransaction {
                item_id: rd_u32(bytes, 4),
                slot: rd_u32(bytes, 8),
                corpse_id: rd_u32(bytes, 12),
                quantity: rd_u32(bytes, 16),
                sequence: rd_u32(bytes, 20),
                coin_copper: rd_u32(bytes, 26),
                from_corpse: false,
            },
        )
    } else {
        Err(LootTransactionError::Unhandled(subcode))
    }
}

} // verus!
