//! The variable-size `OP_Buff` broadcast. Wire forms:
//!
//! ```text
//!   Header (all forms but compact): u32 spawnID @0, u32 spellID @4
//!   13b  "fade"
//!   30b  "initial sync": buff slot @9
//!   34+b "live update":  block-1 duration ticks (u32) @15
//!   24b  "compact":      buff SLOT @0 (not a spawn id), spellID @4,
//!                        changeType @12 (1 = faded, 4 = applied)
//! ```
//! The compact record always describes the local player's own buff window.
//! Its slots 0-14 are real entries; higher values are scribe / bar refreshes
//! and are reported as slot `0xff` so callers can drop them.
use vstd::prelude::*;
use crate::wire::{rd_u32, u32_le};

verus! {

/// The 13-byte fade form.
pub const FORM_FADE: u8 = 0;
/// The 30-byte initial-sync form.
pub const FORM_INITIAL: u8 = 1;
/// The 34-byte-or-longer live-update form.
pub const FORM_UPDATE: u8 = 2;
/// The 24-byte compact buff-slot form.
pub const FORM_COMPACT: u8 = 3;
/// Compact `change_type`: the buff faded.
pub const CHANGE_FADED: u32 = 1;
/// Compact `change_type`: the buff was applied.
pub const CHANGE_APPLIED: u32 = 4;

/// One decoded buff record.
#[derive(Debug, Clone, Copy, PartialEq, Eq, Structural)]
pub struct Buff {
    pub spawn_id: u32,
    pub spell_id: u32,
    /// Which wire form this was.
    pub form: u8,
    /// Buff slot: for the initial and compact forms, else `0xff`.
    pub slot: u8,
    /// Block-1 duration in ticks: for the update form, else 0.
    pub dur_ticks: u32,
    /// Apply/fade code: for the compact form, else 0.
    pub change_type: u32,
}

/// Why a buff record did not decode.
#[derive(Debug, Clone, Copy, PartialEq, Eq, Structural)]
pub enum BuffError {
    /// Under 8 bytes; carries the length.
    Short(usize),
    /// A length that is none of the known forms.
    BadForm(usize),
}

/// The compact form's slot: the raw word below 15, else `0xff`.
pub open spec fn compact_slot(raw: u32) -> u8 {
    if raw < 15 {
        raw as u8
    } else {
        0xff
    }
}

/// Decodes `OP_Buff` by its length.
pub fn parse_buff(bytes: &[u8]) -> (r: Result<Buff, BuffError>)
    ensures
        ({
            let b = bytes@;
            let n = b.len();
            &&& n < 8 ==> r == Err::<Buff, BuffError>(BuffError::Short(n as usize))
            &&& n == 24 ==> r == Ok::<Buff, BuffError>(
                Buff {
                    spawn_id: 0,
                    spell_id: u32_le(b, 4),
                    form: 3,
                    slot: compact_slot(u32_le(b, 0)),
                    dur_ticks: 0,
                    change_type: u32_le(b, 12),
                },
            )
            &&& n == 13 ==> r == Ok::<Buff, BuffError>(
                Buff {
                    spawn_id: u32_le(b, 0),
                    spell_id: u32_le(b, 4),
                    form: 0,
                    slot: 0xff,
                    dur_ticks: 0,
                    change_type: 0,
                },
            )
            &&& n == 30 ==> r == Ok::<Buff, BuffError>(
                Buff {
                    spawn_id: u32_le(b, 0),
                    spell_id: u32_le(b, 4),
                    form: 1,
                    slot: b[9],
                    dur_ticks: 0,
                    change_type: 0,
                },
            )
            &&& n >= 34 ==> r == Ok::<Buff, BuffError>(
                Buff {
                    spawn_id: u32_le(b, 0),
                    spell_id: u32_le(b, 4),
                    form: 2,
                    slot: 0xff,
                    dur_ticks: u32_le(b, 15),
                    change_type: 0,
                },
            )
            &&& 8 <= n < 34 && n != 13 && n != 24 && n != 30 ==> r == Err::<Buff, BuffError>(
                BuffError::BadForm(n as usize),
            )
        }),
{
    if bytes.len() < 8 {
        return Err(BuffError::Short(bytes.len()));
    }
    let spell_id = rd_u32(bytes, 4);
    if bytes.len() == 24 {
        let raw_slot = rd_u32(bytes, 0);
        return Ok(
            Buff {
                spawn_id: 0,
                spell_id,
                form: FORM_COMPACT,
                slot: if raw_slot < 15 {
                    raw_slot as u8
                } else {
                    0xff
                },
                dur_ticks: 0,
                change_type: rd_u32(bytes, 12),
            },
        );
    }
    let spawn_id = rd_u32(bytes, 0);
    let n = bytes.len();
    let (form, slot, dur_ticks) = if n == 13 {
        (FORM_FADE, 0xffu8, 0u32)
    } else if n == 30 {
        (FORM_INITIAL, bytes[9], 0u32)
    } else if n >= 34 {
        (FORM_UPDATE, 0xffu8, rd_u32(bytes, 15))
    } else {
        return Err(BuffError::BadForm(n));
    };
    Ok(Buff { spawn_id, spell_id, form, slot, dur_ticks, change_type: 0 })
}

} // verus!
