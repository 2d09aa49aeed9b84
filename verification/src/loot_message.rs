//! `OP_LootMessage`: personal auto-loot and sell text,
//! `{u32 color@0, NUL-terminated text@4}`; the text embeds `\x12` links.
use vstd::prelude::*;
use crate::links::{clean, clean_links, first_item, first_item_link};
use crate::text::{cstr_bytes, lossy_string, utf8_lossy};
use crate::wire::{rd_u32, scan_byte, u32_le};

verus! {

/// A decoded loot line.
#[derive(Debug, Clone, PartialEq, Eq)]
pub struct LootMessage {
    pub color: u32,
    /// The text with links reduced to their readable names.
    pub text: String,
    /// Item id off the first item link's header; 0 when there is none.
    pub item_id: u32,
    /// That link's readable name; empty when there is none.
    pub item_name: String,
}

/// Why a loot line did not decode.
#[derive(Debug, Clone, Copy, PartialEq, Eq, Structural)]
pub enum LootMessageError {
    /// Under 5 bytes; carries the length.
    BadLength(usize),
}

/// The raw (link-bearing) text of a loot line.
pub open spec fn loot_text(b: Seq<u8>) -> Seq<char> {
    utf8_lossy(cstr_bytes(b.skip(4)))
}

/// Decodes `OP_LootMessage`. The item id and name come off the first item
/// link before the text is cleaned.
pub fn parse_loot_message(bytes: &[u8]) -> (r: Result<LootMessage, LootMessageError>)
    ensures
        bytes@.len() < 5 ==> r == Err::<LootMessage, LootMessageError>(
            LootMessageError::BadLength(bytes@.len() as usize),
        ),
        bytes@.len() >= 5 ==> (r matches Ok(m) && m.color == u32_le(bytes@, 0) && m.text@ == clean(
            loot_text(bytes@),
        ) && match first_item(loot_text(bytes@)) {
            Some((id, name)) => m.item_id == id && m.item_name@ == name,
            None => m.item_id == 0 && m.item_name@.len() == 0,
        }),
{
    if bytes.len() < 5 {
        return Err(LootMessageError::BadLength(bytes.len()));
    }
    let color = rd_u32(bytes, 0);
    let raw = &bytes[4..bytes.len()];
    let end = scan_byte(raw, 0, 0);
    let text = lossy_string(&raw[0..end]);
    proof {
        assert(raw@ =~= bytes@.skip(4));
        assert(raw@.subrange(0, end as int) =~= cstr_bytes(raw@));
    }
    let (item_id, item_name) = match first_item_link(text.as_str()) {
        Some((id, name)) => (id, name),
        None => (0, String::new()),
    };
    Ok(LootMessage { color, text: clean_links(text.as_str()), item_id, item_name })
}

} // verus!
