//! The error shared by the Legends parsers that grew out of one file.
use vstd::prelude::*;

verus! {

/// Why a Legends payload did not decode.
#[derive(Debug, Clone, Copy, PartialEq, Eq)]
pub enum DecodeError {
    /// Payload too short for the fixed header; carries its length.
    Short(usize),
    /// Payload length does not match the structure; carries its length.
    BadLength(usize),
    /// The named field is not plausible text.
    Implausible(&'static str),
}

} // verus!
