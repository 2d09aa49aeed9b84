//! `OP_FormattedMessage`: a length-prefixed sender name, then the
//! `formatId`/`msgType` header and a length-prefixed arg blob.
//!
//! ```text
//!   u32 @0    nameLen   sender-name length, 0 on nearly every format
//!   @4        name      nameLen bytes, not NUL-terminated
//!   u8        pad       one byte after the name
//!   u32 @5+n  formatId  format-string id
//!   u32 @9+n  msgType   message type / chat colour
//!   @13+n     args      [u32 len][len bytes] slots; unused trailing slots
//!                       carry len = 0
//! ```
//! `%N` interpolation is the host's, where the string table lives.
use vstd::prelude::*;
use crate::links::{clean, clean_links};
use crate::text::{latin1, latin1_chars};
use crate::wire::{rd_u32, u32_le};

verus! {

/// Fixed header length past the sender name; the arg blob starts here.
pub const HEADER_LEN: usize = 13;

/// A decoded formatted message.
#[derive(Debug, Clone, PartialEq, Eq)]
pub struct FormattedMessage {
    /// Format-string id.
    pub format_id: u32,
    /// Message type / chat colour.
    pub msg_color: u32,
    /// Positional substitution args (%1..%N), in order, empty slots dropped
    /// and `\x12` links reduced to their readable names.
    pub args: Vec<String>,
}

/// Why a formatted message did not decode.
#[derive(Debug, Clone, Copy, PartialEq, Eq, Structural)]
pub enum FormattedMessageError {
    /// Under [`HEADER_LEN`] bytes; carries the length.
    BadLength(usize),
    /// The sender name length does not fit in the payload of this length.
    BadNameLength(usize, usize),
}

/// The non-empty arg slots `(start, end)` of `blob` from `pos`, in order; the
/// walk ends at a slot whose length runs past the blob.
pub open spec fn arg_slots(blob: Seq<u8>, pos: int) -> Seq<(int, int)>
    decreases blob.len() - pos,
{
    if pos < 0 || pos + 4 > blob.len() {
        Seq::empty()
    } else {
        let n = u32_le(blob, pos);
        let p = pos + 4;
        if n == 0 {
            arg_slots(blob, p)
        } else if p + n > blob.len() {
            Seq::empty()
        } else {
            seq![(p, p + n)] + arg_slots(blob, p + n)
        }
    }
}

/// Arg `(s, e)` of `blob`: its bytes as latin-1, links cleaned.
pub open spec fn arg_text(blob: Seq<u8>, slot: (int, int)) -> Seq<char> {
    clean(latin1_chars(blob.subrange(slot.0, slot.1)))
}

/// Splits the arg blob into positional args, dropping empty slots so `%N`
/// alignment matches the client.
fn split_args(blob: &[u8]) -> (out: Vec<String>)
    ensures
        out@.len() == arg_slots(blob@, 0).len(),
        forall|i: int|
            0 <= i < out@.len() ==> (#[trigger] out@[i])@ == arg_text(
                blob@,
                arg_slots(blob@, 0)[i],
            ),
{
    let mut out: Vec<String> = Vec::new();
    let mut pos: usize = 0;
    let ghost mut done: Seq<(int, int)> = Seq::empty();
    while pos <= blob.len() && blob.len() - pos >= 4
        invariant
            pos <= blob@.len(),
            out@.len() == done.len(),
            arg_slots(blob@, 0) == done + arg_slots(blob@, pos as int),
            forall|i: int|
                0 <= i < done.len() ==> (#[trigger] out@[i])@ == arg_text(blob@, done[i]),
        ensures
            arg_slots(blob@, pos as int) == Seq::<(int, int)>::empty(),
        decreases blob@.len() - pos,
    {
        let len = rd_u32(blob, pos) as usize;
        let p = pos + 4;
        if len == 0 {
            pos = p;
            continue;
        }
        if blob.len() - p < len {
            break;
        }
        let text = latin1(&blob[p..p + len]);
        out.push(clean_links(text.as_str()));
        proof {
            let s = (p as int, p + len);
            assert(done.push(s) + arg_slots(blob@, p + len) =~= done + (seq![s] + arg_slots(
                blob@,
                p + len,
            )));
            done = done.push(s);
        }
        pos = p + len;
    }
    assert(done + Seq::<(int, int)>::empty() =~= done);
    out
}

/// Decodes `OP_FormattedMessage`.
pub fn parse_formatted_message(bytes: &[u8]) -> (r: Result<FormattedMessage, FormattedMessageError>)
    ensures
        bytes@.len() < 13 ==> r == Err::<FormattedMessage, FormattedMessageError>(
            FormattedMessageError::BadLength(bytes@.len() as usize),
        ),
        bytes@.len() >= 13 && u32_le(bytes@, 0) + 13 > bytes@.len() ==> r == Err::<
            FormattedMessage,
            FormattedMessageError,
        >(FormattedMessageError::BadNameLength(u32_le(bytes@, 0) as usize, bytes@.len() as usize)),
        bytes@.len() >= 13 && u32_le(bytes@, 0) + 13 <= bytes@.len() ==> (r matches Ok(m) && {
            let n = u32_le(bytes@, 0) as int;
            let blob = bytes@.skip(n + 13);
            &&& m.format_id == u32_le(bytes@, n + 5)
            &&& m.msg_color == u32_le(bytes@, n + 9)
            &&& m.args@.len() == arg_slots(blob, 0).len()
            &&& forall|i: int|
                0 <= i < m.args@.len() ==> (#[trigger] m.args@[i])@ == arg_text(
                    blob,
                    arg_slots(blob, 0)[i],
                )
        }),
{
    if bytes.len() < HEADER_LEN {
        return Err(FormattedMessageError::BadLength(bytes.len()));
    }
    let name_len = rd_u32(bytes, 0) as usize;
    if bytes.len() - HEADER_LEN < name_len {
        return Err(FormattedMessageError::BadNameLength(name_len, bytes.len()));
    }
    let format_id = rd_u32(bytes, name_len + 5);
    let msg_color = rd_u32(bytes, name_len + 9);
    let blob = &bytes[name_len + HEADER_LEN..bytes.len()];
    assert(blob@ =~= bytes@.skip(name_len + 13));
    let args = split_args(blob);
    Ok(FormattedMessage { format_id, msg_color, args })
}

/// A leading sender name is skipped: a packet whose name length is 0, and the
/// same packet with an `n`-byte name inserted after the length word (and the
/// word set to `n`), decode to the same header fields and the same arg blob,
/// and are accepted or refused together.
pub proof fn lemma_sender_name_is_skipped(plain: Seq<u8>, named: Seq<u8>, n: int)
    requires
        0 <= n,
        plain.len() >= 4,
        u32_le(plain, 0) == 0,
        u32_le(named, 0) == n,
        named.len() == plain.len() + n,
        named.skip(4 + n) == plain.skip(4),
    ensures
        (plain.len() >= 13) == (named.len() >= 13 && n + 13 <= named.len()),
        plain.len() >= 13 ==> {
            &&& u32_le(named, n + 5) == u32_le(plain, 5)
            &&& u32_le(named, n + 9) == u32_le(plain, 9)
            &&& named.skip(n + 13) == plain.skip(13)
        },
{
    if plain.len() >= 13 {
        assert forall|k: int| 5 <= k < 13 implies named[n + k] == plain[k] by {
            assert(named.skip(4 + n)[k - 4] == named[4 + n + k - 4]);
            assert(plain.skip(4)[k - 4] == plain[k]);
        }
        assert(named.skip(n + 13) =~= plain.skip(13)) by {
            assert forall|k: int| 0 <= k < plain.len() - 13 implies named.skip(n + 13)[k]
                == plain.skip(13)[k] by {
                assert(named.skip(4 + n)[k + 9] == named[4 + n + k + 9]);
                assert(plain.skip(4)[k + 9] == plain[k + 13]);
            }
        }
    }
}

} // verus!
