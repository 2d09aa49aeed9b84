//! `OP_GuildMOTD`: the guild message of the day, at fixed offsets.
//!
//! ```text
//! u32, u32, char target[64], char sender[64]@72, u32, char message[516]@140
//! ```
//! Each char field is NUL-terminated within its width; the message runs to
//! its NUL or the payload end. The packet carries no guild id: the MOTD is the
//! local player's own guild's.
use vstd::prelude::*;
use crate::text::{cstr_bytes, cstr_field, utf8_lossy};

verus! {

/// The setter's name.
pub const SENDER_OFF: usize = 72;
/// Width of the setter's name.
pub const SENDER_LEN: usize = 64;
/// The message.
pub const MESSAGE_OFF: usize = 140;

/// A decoded message of the day.
#[derive(Debug, Clone, PartialEq, Eq, Default)]
pub struct GuildMotd {
    pub message: String,
    pub sender: String,
}

/// Why a message of the day did not decode.
#[derive(Debug, Clone, Copy, PartialEq, Eq, Structural)]
pub enum GuildMotdError {
    /// At least the first count was needed; the second arrived.
    BadLength(usize, usize),
}

/// Decodes `OP_GuildMOTD`.
pub fn parse_guild_motd(b: &[u8]) -> (r: Result<GuildMotd, GuildMotdError>)
    ensures
        b@.len() < 140 ==> r == Err::<GuildMotd, GuildMotdError>(
            GuildMotdError::BadLength(140, b@.len() as usize),
        ),
        b@.len() >= 140 ==> (r matches Ok(m) && m.sender@ == utf8_lossy(
            cstr_bytes(b@.subrange(72, 136)),
        ) && m.message@ == utf8_lossy(cstr_bytes(b@.skip(140)))),
{
    if b.len() < MESSAGE_OFF {
        return Err(GuildMotdError::BadLength(MESSAGE_OFF, b.len()));
    }
    let sender = cstr_field(&b[SENDER_OFF..SENDER_OFF + SENDER_LEN]);
    let tail = &b[MESSAGE_OFF..b.len()];
    assert(tail@ =~= b@.skip(140));
    let message = cstr_field(tail);
    Ok(GuildMotd { message, sender })
}

} // verus!
