//! Which chat channels carry player speech (as opposed to system noise).
use vstd::prelude::*;

verus! {

/// Guild, Group, Shout, Auction, OOC, Tell, Say and Raid: channels 0, 2, 3,
/// 4, 5, 7, 8 and 15.
pub fn is_player_channel(c: u32) -> (r: bool)
    ensures
        r == (c == 0 || c == 2 || c == 3 || c == 4 || c == 5 || c == 7 || c == 8 || c == 15),
{
    c == 0 || c == 2 || c == 3 || c == 4 || c == 5 || c == 7 || c == 8 || c == 15
}

} // verus!
