//! `OP_PlayerProfile` on Legends: a fixed identity/coin prefix, a
//! count-prefixed walk to the AA and skill arrays, a signature-located
//! spellbook, and a signature-anchored name/lastname block with its
//! positional tail. Every read is bounds-guarded, so a truncated profile
//! keeps whatever it decoded.
//!
//! ```text
//!   /*0020*/ u8  gender
//!   /*0021*/ u32 race
//!   /*0025*/ u32 class      primary of the three the mask carries
//!   /*0029*/ u32 classMask  multiclass bitmask
//!   /*0033*/ u8  level
//!   /*0962*/ u32 STR STA CHA DEX INT AGI WIS   base stats
//!   /*33687*/ u32 carried  P/G/S/C      /*33703*/ u32 cursor P/G/S/C
//!   /*33777*/ u32 stance   /*33781*/ u32 invocation
//!   bank      located past the inventory mirror of the carried purse
//! ```
//!
//! Floating-point fields are carried as their IEEE-754 single-precision bit
//! patterns (`f32::from_bits` gives the value).
use vstd::prelude::*;
use crate::decode_error::DecodeError;
use crate::text::{cstr_bytes, cstr_latin1, latin1_chars};
use crate::wire::{rd_u16, rd_u16_be, rd_u32, span_fits, u16_be, u16_le, u32_array, u32_le};

verus! {

/// Skill slots kept from the profile's skill array.
pub const MAX_KNOWN_SKILLS: usize = 100;

/// Offset of the AA count field when the count-prefixed walk from byte 35
/// reaches it, or `None` when a section runs past the payload.
///
/// ```text
///   u32 count + count*20   bind points
///   u32 deity, u32 intoxication
///   u32 count + count*4    spell-slot refresh
///   u32 count + count*20   equipment
///   u32 count + count*20, u32 count + count*4, u32 count + count*4  unknown
///   51 + 40 + 28 bytes     appearance, points/mana/hp/base stats, padding
///   u32 count + count*{u32 descId, u32 points, u32 flags}   AA array
///   u32 count + count*u32  skills
/// ```
pub open spec fn profile_aa_count_at(s: Seq<u8>) -> Option<int> {
    let len = s.len() as int;
    if 39 > len {
        None
    } else {
        let a1 = 39 + 20 * u32_le(s, 35);
        if a1 + 12 > len {
            None
        } else {
            let a2 = a1 + 12 + 4 * u32_le(s, a1 + 8);
            if a2 + 4 > len {
                None
            } else {
                let a3 = a2 + 4 + 20 * u32_le(s, a2);
                if a3 + 4 > len {
                    None
                } else {
                    let a4 = a3 + 4 + 20 * u32_le(s, a3);
                    if a4 + 4 > len {
                        None
                    } else {
                        let a5 = a4 + 4 + 4 * u32_le(s, a4);
                        if a5 + 4 > len {
                            None
                        } else {
                            let a6 = a5 + 4 + 4 * u32_le(s, a5);
                            if a6 + 123 > len {
                                None
                            } else {
                                Some(a6 + 119)
                            }
                        }
                    }
                }
            }
        }
    }
}

/// Number of AA records.
pub open spec fn profile_aa_count(s: Seq<u8>) -> int {
    u32_le(s, profile_aa_count_at(s).unwrap()) as int
}

/// The whole AA array fits: the walk reaches it and its records lie inside.
pub open spec fn profile_aa_ok(s: Seq<u8>) -> bool {
    profile_aa_count_at(s) matches Some(a) && a + 4 + 12 * profile_aa_count(s) <= s.len()
}

/// Offset of the skill count (just past the AA array).
pub open spec fn profile_skill_count_at(s: Seq<u8>) -> int {
    profile_aa_count_at(s).unwrap() + 4 + 12 * profile_aa_count(s)
}

/// Number of skills.
pub open spec fn profile_skill_count(s: Seq<u8>) -> int {
    u32_le(s, profile_skill_count_at(s)) as int
}

/// The whole skill array fits after the AA array.
pub open spec fn profile_skills_ok(s: Seq<u8>) -> bool {
    profile_aa_ok(s) && profile_skill_count_at(s) + 4 <= s.len() && profile_skill_count_at(s)
        + 4 + 4 * profile_skill_count(s) <= s.len()
}

/// AA description ids.
pub open spec fn profile_aa_ids(s: Seq<u8>) -> Seq<u32> {
    if profile_aa_ok(s) {
        u32_array(s, profile_aa_count_at(s).unwrap() + 4, 12, profile_aa_count(s) as nat)
    } else {
        Seq::empty()
    }
}

/// AA point values.
pub open spec fn profile_aa_values(s: Seq<u8>) -> Seq<u32> {
    if profile_aa_ok(s) {
        u32_array(s, profile_aa_count_at(s).unwrap() + 8, 12, profile_aa_count(s) as nat)
    } else {
        Seq::empty()
    }
}

/// Sum of `v` modulo 2^32.
pub open spec fn wrapping_sum(v: Seq<u32>) -> u32
    decreases v.len(),
{
    if v.len() == 0 {
        0
    } else {
        ((wrapping_sum(v.drop_last()) as int + v.last() as int) % 0x1_0000_0000) as u32
    }
}

/// Skill values: the first `MAX_KNOWN_SKILLS` of the array.
pub open spec fn profile_skills(s: Seq<u8>) -> Seq<u32> {
    if profile_skills_ok(s) {
        let n = profile_skill_count(s);
        u32_array(
            s,
            profile_skill_count_at(s) + 4,
            4,
            (if n < MAX_KNOWN_SKILLS { n } else { MAX_KNOWN_SKILLS as int }) as nat,
        )
    } else {
        Seq::empty()
    }
}

/// The AA id and value lists of a profile always have one length, the AA
/// points spent are the wrapping `u32` sum of the values (0 when the array is
/// absent), and at most `MAX_KNOWN_SKILLS` skill values are kept.
pub proof fn lemma_profile_aa_shape(s: Seq<u8>)
    ensures
        profile_aa_ids(s).len() == profile_aa_values(s).len(),
        (if profile_aa_ok(s) { wrapping_sum(profile_aa_values(s)) } else { 0 }) == wrapping_sum(
            profile_aa_values(s),
        ),
        profile_skills(s).len() <= MAX_KNOWN_SKILLS,
{
}

/// Reads the `u32` count at `p` and skips `count * width` bytes past it;
/// `None` when either runs past the payload.
fn skip_counted(b: &[u8], p: usize, width: usize) -> (r: Option<usize>)
    requires
        p <= b@.len(),
        width > 0,
    ensures
        p + 4 > b@.len() ==> r is None,
        p + 4 <= b@.len() && p + 4 + width * u32_le(b@, p as int) > b@.len() ==> r is None,
        p + 4 <= b@.len() && p + 4 + width * u32_le(b@, p as int) <= b@.len() ==> r == Some(
            (p + 4 + width * u32_le(b@, p as int)) as usize,
        ),
{
    if b.len() - p < 4 {
        return None;
    }
    let n = rd_u32(b, p) as usize;
    let q = p + 4;
    if !span_fits(b.len(), q, n, width) {
        return None;
    }
    proof {
        assert(width * n == n * width) by (nonlinear_arith);
    }
    Some(q + n * width)
}

/// Walks the count-prefixed sections from byte 35 to the AA and skill
/// arrays and appends what it finds to `prof`: once the whole AA array fits,
/// its ids and values, with their wrapping sum as the points spent; once the
/// skill array fits after it too, the first `MAX_KNOWN_SKILLS` skill values.
/// No other field of `prof` changes.
fn walk_profile_skills(b: &[u8], prof: &mut PlayerProfile)
    ensures
        final(prof).aa_ids@ == old(prof).aa_ids@ + profile_aa_ids(b@),
        final(prof).aa_values@ == old(prof).aa_values@ + profile_aa_values(b@),
        final(prof).aa_spent == (if profile_aa_ok(b@) {
            wrapping_sum(profile_aa_values(b@))
        } else {
            old(prof).aa_spent
        }),
        final(prof).skills@ == old(prof).skills@ + profile_skills(b@),
        *final(prof) == (PlayerProfile {
            aa_ids: final(prof).aa_ids,
            aa_values: final(prof).aa_values,
            aa_spent: final(prof).aa_spent,
            skills: final(prof).skills,
            ..*old(prof)
        }),
{
    let len = b.len();
    let mut aa_ids: Vec<u32> = Vec::new();
    let mut aa_values: Vec<u32> = Vec::new();
    let mut skills: Vec<u32> = Vec::new();
    if len < 35 {
        return;
    }
    let a1 = match skip_counted(b, 35, 20) {
        Some(p) => p,
        None => {
            return;
        },
    };
    // deity and intoxication
    if len - a1 < 8 {
        return;
    }
    let a2 = match skip_counted(b, a1 + 8, 4) {
        Some(p) => p,
        None => {
            return;
        },
    };
    let a3 = match skip_counted(b, a2, 20) {
        Some(p) => p,
        None => {
            return;
        },
    };
    let a4 = match skip_counted(b, a3, 20) {
        Some(p) => p,
        None => {
            return;
        },
    };
    let a5 = match skip_counted(b, a4, 4) {
        Some(p) => p,
        None => {
            return;
        },
    };
    let a6 = match skip_counted(b, a5, 4) {
        Some(p) => p,
        None => {
            return;
        },
    };
    // appearance (51), points/mana/hp/stats (40), padding (28)
    if len - a6 < 119 + 4 {
        return;
    }
    let a7 = a6 + 119;
    assert(profile_aa_count_at(b@) == Some(a7 as int));
    let aa_count = rd_u32(b, a7) as usize;
    let aa_start = a7 + 4;
    if !span_fits(len, aa_start, aa_count, 12) {
        return;
    }
    let mut aa_spent: u32 = 0;
    let mut k: usize = 0;
    let mut p = aa_start;
    while k < aa_count
        invariant
            len == b@.len(),
            aa_start + aa_count * 12 <= len,
            k <= aa_count,
            p == aa_start + 12 * k,
            aa_ids@ == u32_array(b@, aa_start as int, 12, k as nat),
            aa_values@ == u32_array(b@, aa_start + 4, 12, k as nat),
            aa_spent == wrapping_sum(u32_array(b@, aa_start + 4, 12, k as nat)),
        decreases aa_count - k,
    {
        proof {
            assert(12 * (k + 1) <= 12 * aa_count) by (nonlinear_arith)
                requires
                    k < aa_count,
            ;
        }
        let id = rd_u32(b, p);
        let val = rd_u32(b, p + 4);
        let ghost prev = u32_array(b@, aa_start + 4, 12, k as nat);
        aa_spent = ((aa_spent as u64 + val as u64) % 0x1_0000_0000) as u32;
        aa_ids.push(id);
        aa_values.push(val);
        p = p + 12;
        k = k + 1;
        proof {
            let cur = u32_array(b@, aa_start + 4, 12, k as nat);
            assert(cur.drop_last() =~= prev);
            assert(aa_ids@ =~= u32_array(b@, aa_start as int, 12, k as nat));
            assert(aa_values@ =~= cur);
        }
    }
    prof.aa_ids.append(&mut aa_ids);
    prof.aa_values.append(&mut aa_values);
    prof.aa_spent = aa_spent;
    let sk_at = aa_start + aa_count * 12;
    assert(sk_at == profile_skill_count_at(b@));
    if len - sk_at < 4 {
        return;
    }
    let skill_count = rd_u32(b, sk_at) as usize;
    let sk_start = sk_at + 4;
    if !span_fits(len, sk_start, skill_count, 4) {
        return;
    }
    let stored = if skill_count < MAX_KNOWN_SKILLS {
        skill_count
    } else {
        MAX_KNOWN_SKILLS
    };
    let mut i: usize = 0;
    while i < stored
        invariant
            len == b@.len(),
            sk_start + skill_count * 4 <= len,
            stored <= skill_count,
            i <= stored,
            skills@ == u32_array(b@, sk_start as int, 4, i as nat),
        decreases stored - i,
    {
        let v = rd_u32(b, sk_start + 4 * i);
        skills.push(v);
        i = i + 1;
        assert(skills@ =~= u32_array(b@, sk_start as int, 4, i as nat));
    }
    prof.skills.append(&mut skills);
}

/// Spellbook slot count.
pub const SPELLBOOK_SLOTS: usize = 800;

/// Spellbook slot `k` of a book at `o` is plausible: its small word is at
/// most 4096 and its id is empty (`0xffffffff`) or a spell id in 1..=100000.
pub open spec fn book_slot_valid(s: Seq<u8>, o: int, k: int) -> bool {
    let id = u32_le(s, o + 8 * k);
    let word = u32_le(s, o + 8 * k + 4);
    word <= 4096 && (id == 0xffff_ffff || (1 <= id && id <= 100_000))
}

/// Number of non-empty slots among the first `n` of a book at `o`.
pub open spec fn book_populated(s: Seq<u8>, o: int, n: nat) -> nat
    decreases n,
{
    if n == 0 {
        0
    } else {
        book_populated(s, o, (n - 1) as nat) + (if u32_le(s, o + 8 * (n - 1)) != 0xffff_ffff {
            1nat
        } else {
            0nat
        })
    }
}

/// A plausible spellbook starts at `o`: every slot valid, at least 64 used.
pub open spec fn is_spellbook_at(s: Seq<u8>, o: int) -> bool {
    &&& o + 8 * SPELLBOOK_SLOTS <= s.len()
    &&& forall|k: int| 0 <= k < SPELLBOOK_SLOTS ==> book_slot_valid(s, o, k)
    &&& book_populated(s, o, SPELLBOOK_SLOTS as nat) >= 64
}

/// The first even offset at or after `o` where a spellbook starts.
pub open spec fn first_spellbook_from(s: Seq<u8>, o: int) -> Option<int>
    decreases s.len() - o,
{
    if o < 0 || o + 8 * SPELLBOOK_SLOTS > s.len() {
        None
    } else if is_spellbook_at(s, o) {
        Some(o)
    } else {
        first_spellbook_from(s, o + 2)
    }
}

/// Whether a book at `o` is plausible, by checking its slots one by one.
fn spellbook_at(b: &[u8], o: usize) -> (r: bool)
    requires
        o + 8 * SPELLBOOK_SLOTS <= b@.len(),
    ensures
        r == is_spellbook_at(b@, o as int),
{
    let _len = b.len();
    let mut populated: usize = 0;
    let mut k: usize = 0;
    while k < SPELLBOOK_SLOTS
        invariant
            o + 8 * SPELLBOOK_SLOTS <= b@.len(),
            b@.len() <= usize::MAX,
            k <= SPELLBOOK_SLOTS,
            populated == book_populated(b@, o as int, k as nat),
            populated <= k,
            forall|j: int| 0 <= j < k ==> book_slot_valid(b@, o as int, j),
        decreases SPELLBOOK_SLOTS - k,
    {
        let id = rd_u32(b, o + k * 8);
        let word = rd_u32(b, o + k * 8 + 4);
        if word > 4096 || (id != 0xffff_ffff && !(1 <= id && id <= 100_000)) {
            assert(!book_slot_valid(b@, o as int, k as int));
            return false;
        }
        if id != 0xffff_ffff {
            populated = populated + 1;
        }
        k = k + 1;
    }
    populated >= 64
}

/// Offset of the spellbook region, found by scanning even offsets for the
/// first plausible book.
pub fn find_profile_spellbook(b: &[u8]) -> (r: Option<usize>)
    ensures
        r matches Some(o) ==> first_spellbook_from(b@, 0) == Some(o as int) && o + 8
            * SPELLBOOK_SLOTS <= b@.len(),
        r is None ==> first_spellbook_from(b@, 0) is None,
{
    let span = SPELLBOOK_SLOTS * 8;
    if b.len() < span {
        return None;
    }
    let last = b.len() - span;
    let mut o: usize = 0;
    while o <= last
        invariant
            last + span == b@.len(),
            b@.len() <= usize::MAX,
            span == 8 * SPELLBOOK_SLOTS,
            o % 2 == 0,
            first_spellbook_from(b@, o as int) == first_spellbook_from(b@, 0),
        decreases last + 2 - o,
    {
        if spellbook_at(b, o) {
            return Some(o);
        }
        o = o + 2;
    }
    None
}

/// Index of the first byte at or after `from` (below `end`) that is not
/// printable ASCII (0x20..=0x7e), or `end`.
pub open spec fn first_unprintable(s: Seq<u8>, from: int, end: int) -> int
    decreases end - from,
{
    if from >= end {
        end
    } else if 0x20 <= s[from] <= 0x7e {
        first_unprintable(s, from + 1, end)
    } else {
        from
    }
}

/// The name-block signature at `p`: `u32 64`, a 64-byte name that starts
/// with an uppercase letter and is printable up to its NUL, then `u32 32`.
pub open spec fn is_name_block_at(s: Seq<u8>, p: int) -> bool {
    &&& s[p] == 0x40 && s[p + 1] == 0 && s[p + 2] == 0 && s[p + 3] == 0
    &&& s[p + 68] == 0x20 && s[p + 69] == 0 && s[p + 70] == 0 && s[p + 71] == 0
    &&& 0x41 <= s[p + 4] <= 0x5a
    &&& first_unprintable(s, p + 4, p + 68) < p + 68
    &&& s[first_unprintable(s, p + 4, p + 68)] == 0
}

/// The first offset at or after `p` holding the name-block signature.
pub open spec fn first_name_block_from(s: Seq<u8>, p: int) -> Option<int>
    decreases s.len() - p,
{
    if p < 0 || p + 104 > s.len() {
        None
    } else if is_name_block_at(s, p) {
        Some(p)
    } else {
        first_name_block_from(s, p + 1)
    }
}

fn name_block_at(b: &[u8], p: usize) -> (r: bool)
    requires
        p + 104 <= b@.len(),
    ensures
        r == is_name_block_at(b@, p as int),
{
    if b[p] != 0x40 || b[p + 1] != 0 || b[p + 2] != 0 || b[p + 3] != 0 {
        return false;
    }
    if b[p + 68] != 0x20 || b[p + 69] != 0 || b[p + 70] != 0 || b[p + 71] != 0 {
        return false;
    }
    if !(0x41 <= b[p + 4] && b[p + 4] <= 0x5a) {
        return false;
    }
    let _len = b.len();
    let end = p + 68;
    let mut i = p + 4;
    while i < end && 0x20 <= b[i] && b[i] <= 0x7e
        invariant
            end == p + 68,
            p + 4 <= i <= p + 68,
            p + 104 <= b@.len(),
            b@.len() <= usize::MAX,
            first_unprintable(b@, i as int, p + 68) == first_unprintable(b@, p + 4, p + 68),
        decreases p + 68 - i,
    {
        i = i + 1;
    }
    i < end && b[i] == 0
}

/// Offset of the `u32 64` + name + `u32 32` + lastname signature.
fn find_profile_name_block(b: &[u8]) -> (r: Option<usize>)
    ensures
        r matches Some(p) ==> first_name_block_from(b@, 0) == Some(p as int) && p + 104
            <= b@.len(),
        r is None ==> first_name_block_from(b@, 0) is None,
{
    if b.len() < 104 {
        return None;
    }
    let last = b.len() - 104;
    let mut p: usize = 0;
    while p <= last
        invariant
            last + 104 == b@.len(),
            b@.len() <= usize::MAX,
            first_name_block_from(b@, p as int) == first_name_block_from(b@, 0),
        decreases last + 1 - p,
    {
        if name_block_at(b, p) {
            return Some(p);
        }
        p = p + 1;
    }
    None
}

/// Offset just past the name (its length prefix names the field width).
pub open spec fn tail_after_name(s: Seq<u8>, p0: int) -> int {
    p0 + 4 + u32_le(s, p0)
}

/// Offset just past the last name.
pub open spec fn tail_after_last(s: Seq<u8>, p0: int) -> int {
    let t1 = tail_after_name(s, p0);
    t1 + 4 + u32_le(s, t1)
}

/// Number of language bytes.
pub open spec fn tail_lang_count(s: Seq<u8>, p0: int) -> int {
    u32_le(s, tail_after_last(s, p0) + 28) as int
}

/// Offset just past the languages.
pub open spec fn tail_after_langs(s: Seq<u8>, p0: int) -> int {
    tail_after_last(s, p0) + 32 + tail_lang_count(s, p0)
}

/// End offset of tail step `k`:
/// 1 name, 2 last name, 3 birthday, 4 account created, 5 last save,
/// 6 minutes played, 7 expansions, 8 language count, 9 languages,
/// 10 zone id, 11 zone instance, 12 y, 13 x, 14 z, 15 heading,
/// 16 stand state, 17 anon, 18 guild id, 19 guild server id.
pub open spec fn tail_end(s: Seq<u8>, p0: int, k: int) -> int {
    let t1 = tail_after_name(s, p0);
    let t2 = tail_after_last(s, p0);
    let t3 = tail_after_langs(s, p0);
    if k == 1 {
        p0 + 68
    } else if k == 2 {
        t1 + 36
    } else if k <= 6 {
        t2 + 4 * (k - 2)
    } else if k == 7 {
        t2 + 24
    } else if k == 8 {
        t2 + 32
    } else if k == 9 {
        t3
    } else if k == 10 {
        t3 + 2
    } else if k == 11 {
        t3 + 4
    } else if k <= 15 {
        t3 + 4 * (k - 10)
    } else if k == 16 {
        t3 + 22
    } else if k == 17 {
        t3 + 24
    } else {
        t3 + 4 * (k - 11)
    }
}

/// Tail steps 1..=k all lie inside the payload (each step is only read
/// when the ones before it were).
pub open spec fn tail_reached(s: Seq<u8>, p0: int, k: int) -> bool
    decreases k,
{
    if k <= 0 {
        true
    } else {
        tail_reached(s, p0, k - 1) && tail_end(s, p0, k) <= s.len()
    }
}

/// The name/lastname block and its positional tail, each field at its
/// default when its step was not reached. Floats are bit patterns.
struct ProfileTail {
    name: String,
    last_name: String,
    birthday_time: u32,
    account_create_date: u32,
    last_save_time: u32,
    time_played_min: u32,
    expansions: u32,
    languages: Vec<u8>,
    zone_id: u16,
    zone_instance: u16,
    y_bits: u32,
    x_bits: u32,
    z_bits: u32,
    heading_bits: u32,
    stand_state: u16,
    anon: u16,
    guild_id: u32,
    guild_server_id: u32,
}

/// `v` when tail step `k` was reached, else 0.
pub open spec fn tail_u32(s: Seq<u8>, p0: int, k: int, v: u32) -> u32 {
    if tail_reached(s, p0, k) {
        v
    } else {
        0
    }
}

/// `v` when tail step `k` was reached, else 0.
pub open spec fn tail_u16(s: Seq<u8>, p0: int, k: int, v: u16) -> u16 {
    if tail_reached(s, p0, k) {
        v
    } else {
        0
    }
}

/// The tail read from the block at `p0`, field by field.
spec fn tail_matches(s: Seq<u8>, p0: int, t: ProfileTail) -> bool {
    let t1 = tail_after_name(s, p0);
    let t2 = tail_after_last(s, p0);
    let t3 = tail_after_langs(s, p0);
    &&& t.name@ == (if tail_reached(s, p0, 1) {
        latin1_chars(cstr_bytes(s.subrange(p0 + 4, p0 + 68)))
    } else {
        Seq::empty()
    })
    &&& t.last_name@ == (if tail_reached(s, p0, 2) {
        latin1_chars(cstr_bytes(s.subrange(t1 + 4, t1 + 36)))
    } else {
        Seq::empty()
    })
    &&& t.birthday_time == tail_u32(s, p0, 3, u32_le(s, t2))
    &&& t.account_create_date == tail_u32(s, p0, 4, u32_le(s, t2 + 4))
    &&& t.last_save_time == tail_u32(s, p0, 5, u32_le(s, t2 + 8))
    &&& t.time_played_min == tail_u32(s, p0, 6, u32_le(s, t2 + 12))
    &&& t.expansions == tail_u32(s, p0, 7, u32_le(s, t2 + 20))
    &&& t.languages@ == (if tail_reached(s, p0, 8) {
        s.subrange(t2 + 32, if t3 < s.len() { t3 } else { s.len() as int })
    } else {
        Seq::empty()
    })
    &&& t.zone_id == tail_u16(s, p0, 10, u16_le(s, t3))
    &&& t.zone_instance == tail_u16(s, p0, 11, u16_le(s, t3 + 2))
    &&& t.y_bits == tail_u32(s, p0, 12, u32_le(s, t3 + 4))
    &&& t.x_bits == tail_u32(s, p0, 13, u32_le(s, t3 + 8))
    &&& t.z_bits == tail_u32(s, p0, 14, u32_le(s, t3 + 12))
    &&& t.heading_bits == tail_u32(s, p0, 15, u32_le(s, t3 + 16))
    &&& t.stand_state == tail_u16(s, p0, 16, u16_be(s, t3 + 20))
    &&& t.anon == tail_u16(s, p0, 17, u16_be(s, t3 + 22))
    &&& t.guild_id == tail_u32(s, p0, 18, u32_le(s, t3 + 24))
    &&& t.guild_server_id == tail_u32(s, p0, 19, u32_le(s, t3 + 28))
}

proof fn lemma_unreached_stays(s: Seq<u8>, p0: int, k: int, m: int)
    requires
        k <= m,
        !tail_reached(s, p0, k),
    ensures
        !tail_reached(s, p0, m),
    decreases m - k,
{
    if k < m {
        lemma_unreached_stays(s, p0, k, m - 1);
    }
}

proof fn lemma_unreached_from(s: Seq<u8>, p0: int, k: int)
    requires
        !tail_reached(s, p0, k),
    ensures
        forall|m: int| k <= m ==> !#[trigger] tail_reached(s, p0, m),
{
    assert forall|m: int| k <= m implies !#[trigger] tail_reached(s, p0, m) by {
        lemma_unreached_stays(s, p0, k, m);
    }
}

/// Reads name, last name and the positional tail from the block at `p0`.
#[verifier::rlimit(80)]
fn read_profile_name_and_tail(b: &[u8], p0: usize) -> (t: ProfileTail)
    requires
        p0 + 104 <= b@.len(),
    ensures
        tail_matches(b@, p0 as int, t),
{
    let ghost s = b@;
    let len = b.len();
    let mut t = ProfileTail {
        name: String::new(),
        last_name: String::new(),
        birthday_time: 0,
        account_create_date: 0,
        last_save_time: 0,
        time_played_min: 0,
        expansions: 0,
        languages: Vec::new(),
        zone_id: 0,
        zone_instance: 0,
        y_bits: 0,
        x_bits: 0,
        z_bits: 0,
        heading_bits: 0,
        stand_state: 0,
        anon: 0,
        guild_id: 0,
        guild_server_id: 0,
    };
    assert(tail_reached(s, p0 as int, 0));
    assert(tail_reached(s, p0 as int, 1));
    let name_len = rd_u32(b, p0) as usize;
    t.name = cstr_latin1(&b[p0 + 4..p0 + 68]);
    let p = p0 + 4;
    if name_len > len - p {
        proof {
            lemma_unreached_from(s, p0 as int, 2);
        }
        return t;
    }
    let t1 = p + name_len;
    if len - t1 < 36 {
        proof {
            lemma_unreached_from(s, p0 as int, 2);
        }
        return t;
    }
    assert(tail_reached(s, p0 as int, 2));
    let last_len = rd_u32(b, t1) as usize;
    t.last_name = cstr_latin1(&b[t1 + 4..t1 + 36]);
    let p = t1 + 4;
    if last_len > len - p {
        proof {
            lemma_unreached_from(s, p0 as int, 3);
        }
        return t;
    }
    let t2 = p + last_len;
    if len - t2 < 4 {
        proof {
            lemma_unreached_from(s, p0 as int, 3);
        }
        return t;
    }
    assert(tail_reached(s, p0 as int, 3));
    t.birthday_time = rd_u32(b, t2);
    if len - t2 < 8 {
        proof {
            lemma_unreached_from(s, p0 as int, 4);
        }
        return t;
    }
    assert(tail_reached(s, p0 as int, 4));
    t.account_create_date = rd_u32(b, t2 + 4);
    if len - t2 < 12 {
        proof {
            lemma_unreached_from(s, p0 as int, 5);
        }
        return t;
    }
    assert(tail_reached(s, p0 as int, 5));
    t.last_save_time = rd_u32(b, t2 + 8);
    if len - t2 < 16 {
        proof {
            lemma_unreached_from(s, p0 as int, 6);
        }
        return t;
    }
    assert(tail_reached(s, p0 as int, 6));
    t.time_played_min = rd_u32(b, t2 + 12);
    if len - t2 < 24 {
        proof {
            lemma_unreached_from(s, p0 as int, 7);
        }
        return t;
    }
    assert(tail_reached(s, p0 as int, 7));
    t.expansions = rd_u32(b, t2 + 20);
    if len - t2 < 32 {
        proof {
            lemma_unreached_from(s, p0 as int, 8);
        }
        return t;
    }
    assert(tail_reached(s, p0 as int, 8));
    let lang_count = rd_u32(b, t2 + 28) as usize;
    let lp = t2 + 32;
    let avail = len - lp;
    if lang_count > avail {
        t.languages = vstd::slice::slice_to_vec(&b[lp..len]);
        proof {
            lemma_unreached_from(s, p0 as int, 9);
        }
        return t;
    }
    t.languages = vstd::slice::slice_to_vec(&b[lp..lp + lang_count]);
    let t3 = lp + lang_count;
    assert(tail_reached(s, p0 as int, 9));
    if len - t3 < 2 {
        proof {
            lemma_unreached_from(s, p0 as int, 10);
        }
        return t;
    }
    assert(tail_reached(s, p0 as int, 10));
    t.zone_id = rd_u16(b, t3);
    if len - t3 < 4 {
        proof {
            lemma_unreached_from(s, p0 as int, 11);
        }
        return t;
    }
    assert(tail_reached(s, p0 as int, 11));
    t.zone_instance = rd_u16(b, t3 + 2);
    if len - t3 < 8 {
        proof {
            lemma_unreached_from(s, p0 as int, 12);
        }
        return t;
    }
    assert(tail_reached(s, p0 as int, 12));
    t.y_bits = rd_u32(b, t3 + 4);
    if len - t3 < 12 {
        proof {
            lemma_unreached_from(s, p0 as int, 13);
        }
        return t;
    }
    assert(tail_reached(s, p0 as int, 13));
    t.x_bits = rd_u32(b, t3 + 8);
    if len - t3 < 16 {
        proof {
            lemma_unreached_from(s, p0 as int, 14);
        }
        return t;
    }
    assert(tail_reached(s, p0 as int, 14));
    t.z_bits = rd_u32(b, t3 + 12);
    if len - t3 < 20 {
        proof {
            lemma_unreached_from(s, p0 as int, 15);
        }
        return t;
    }
    assert(tail_reached(s, p0 as int, 15));
    t.heading_bits = rd_u32(b, t3 + 16);
    if len - t3 < 22 {
        proof {
            lemma_unreached_from(s, p0 as int, 16);
        }
        return t;
    }
    assert(tail_reached(s, p0 as int, 16));
    t.stand_state = rd_u16_be(b, t3 + 20);
    if len - t3 < 24 {
        proof {
            lemma_unreached_from(s, p0 as int, 17);
        }
        return t;
    }
    assert(tail_reached(s, p0 as int, 17));
    t.anon = rd_u16_be(b, t3 + 22);
    if len - t3 < 28 {
        proof {
            lemma_unreached_from(s, p0 as int, 18);
        }
        return t;
    }
    assert(tail_reached(s, p0 as int, 18));
    t.guild_id = rd_u32(b, t3 + 24);
    if len - t3 < 32 {
        proof {
            lemma_unreached_from(s, p0 as int, 19);
        }
        return t;
    }
    assert(tail_reached(s, p0 as int, 19));
    t.guild_server_id = rd_u32(b, t3 + 28);
    t
}

/// A decoded player profile. Fields this layout does not carry stay at
/// zero / empty; floating-point fields hold their IEEE-754 bit patterns.
#[derive(Debug, Clone, PartialEq, Eq, Default)]
pub struct PlayerProfile {
    pub bytes_consumed: u32,
    pub checksum: u32,
    pub gender: u8,
    pub race: u32,
    pub class_: u32,
    /// Multiclass bitmask (bit N = class N).
    pub class_mask: u32,
    /// Active stance ability id; 0 = none.
    pub stance: u32,
    /// Active invocation ability id; 0 = none.
    pub invocation: u32,
    pub level: u8,
    pub level1: u8,
    pub bind0_zone_id: u32,
    pub bind0_x_bits: u32,
    pub bind0_y_bits: u32,
    pub bind0_z_bits: u32,
    pub bind0_heading_bits: u32,
    pub deity: u32,
    pub intoxication: u32,
    pub points: u32,
    pub mana: u32,
    pub cur_hp: u32,
    pub str_: u32,
    pub sta: u32,
    pub cha: u32,
    pub dex: u32,
    pub int_: u32,
    pub agi: u32,
    pub wis: u32,
    pub aa_ids: Vec<u32>,
    pub aa_values: Vec<u32>,
    /// Skill values, index = skill id (at most `MAX_KNOWN_SKILLS`).
    pub skills: Vec<u32>,
    pub disciplines: Vec<u32>,
    pub recast_timers: Vec<u32>,
    pub spell_book: Vec<i32>,
    pub mem_spells: Vec<i32>,
    pub spell_slot_refresh: Vec<u32>,
    pub buff_spell_ids: Vec<i32>,
    pub buff_durations: Vec<i32>,
    pub platinum: u32,
    pub gold: u32,
    pub silver: u32,
    pub copper: u32,
    pub platinum_cursor: u32,
    pub gold_cursor: u32,
    pub silver_cursor: u32,
    pub copper_cursor: u32,
    pub aa_spent: u32,
    pub aa_assigned: u32,
    pub aa_unspent: u32,
    pub endurance: u32,
    pub exp_aa: u32,
    pub name: String,
    pub last_name: String,
    pub birthday_time: u32,
    pub account_create_date: u32,
    pub last_save_time: u32,
    pub time_played_min: u32,
    pub expansions: u32,
    pub languages: Vec<u8>,
    pub zone_id: u16,
    pub zone_instance: u16,
    pub x_bits: u32,
    pub y_bits: u32,
    pub z_bits: u32,
    pub heading_bits: u32,
    pub stand_state: u16,
    pub anon: u16,
    pub guild_id: u32,
    pub guild_server_id: u32,
    pub platinum_inventory: u32,
    pub gold_inventory: u32,
    pub silver_inventory: u32,
    pub copper_inventory: u32,
    pub platinum_bank: u32,
    pub gold_bank: u32,
    pub silver_bank: u32,
    pub copper_bank: u32,
    pub platinum_shared: u32,
    pub career_tribute: u32,
    pub current_tribute: u32,
    pub current_rad_crystals: u32,
    pub career_rad_crystals: u32,
    pub current_ebon_crystals: u32,
    pub career_ebon_crystals: u32,
    pub autosplit: u8,
    pub ldon_guk_points: u32,
    pub ldon_mir_points: u32,
    pub ldon_mmc_points: u32,
    pub ldon_ruj_points: u32,
    pub ldon_tak_points: u32,
    pub ldon_avail_points: u32,
}

/// Profile errors of the stock layout (the Legends parser reports
/// `DecodeError`).
#[derive(Debug, Clone, Copy, PartialEq, Eq)]
pub enum PlayerProfileError {
    /// Truncated at the given byte, needing the given number more.
    Truncated(usize, usize),
    /// A section declared more elements than the payload holds.
    OverlongSection(&'static str, u32),
}

/// Offset of the carried purse (platinum, gold, silver, copper).
pub open spec fn carried_at() -> int {
    33687
}

/// The 16 bytes at `o` repeat the carried purse bytes.
pub open spec fn purse_mirror_at(s: Seq<u8>, o: int) -> bool {
    s.subrange(o, o + 16) == s.subrange(carried_at(), carried_at() + 16)
}

/// The first offset at or after `o` where the carried purse repeats.
pub open spec fn first_purse_mirror_from(s: Seq<u8>, o: int) -> Option<int>
    decreases s.len() - o,
{
    if o < 0 || o + 16 > s.len() {
        None
    } else if purse_mirror_at(s, o) {
        Some(o)
    } else {
        first_purse_mirror_from(s, o + 1)
    }
}

/// The carried purse is not all zero (an all-zero purse would match any
/// padding, so the mirror is not searched for).
pub open spec fn carried_nonzero(s: Seq<u8>) -> bool {
    !(u32_le(s, 33687) == 0 && u32_le(s, 33691) == 0 && u32_le(s, 33695) == 0 && u32_le(s, 33699)
        == 0)
}

/// Offset of the inventory mirror of the carried purse (followed by the
/// bank), when the profile is long enough, the purse is not empty, and the
/// first mirror past the cursor block has 32 bytes after it.
pub open spec fn purse_mirror(s: Seq<u8>) -> Option<int> {
    if s.len() >= 36277 && carried_nonzero(s) {
        match first_purse_mirror_from(s, 33703) {
            Some(o) => if o + 32 <= s.len() {
                Some(o)
            } else {
                None
            },
            None => None,
        }
    } else {
        None
    }
}

/// `v` when the profile is at least `n` bytes long, else 0.
pub open spec fn if_len(s: Seq<u8>, n: int, v: u32) -> u32 {
    if s.len() >= n {
        v
    } else {
        0
    }
}

/// `u32` at `o + d` when the purse mirror was found at `o`, else 0.
pub open spec fn mirror_u32(s: Seq<u8>, d: int) -> u32 {
    match purse_mirror(s) {
        Some(o) => u32_le(s, o + d),
        None => 0,
    }
}

/// Spellbook ids: the 800 slots of the first plausible book, each read as
/// `i32` (an empty slot reads -1); empty when there is no book.
pub open spec fn profile_spell_book(s: Seq<u8>) -> Seq<i32> {
    match first_spellbook_from(s, 0) {
        Some(o) => Seq::new(SPELLBOOK_SLOTS as nat, |k: int| crate::wire::as_i32(u32_le(s, o + 8 * k))),
        None => Seq::empty(),
    }
}

/// Fields of the name block's tail, from the block found by the scan.
pub open spec fn profile_tail_fields(s: Seq<u8>, p: PlayerProfile) -> bool {
    match first_name_block_from(s, 0) {
        None => {
            &&& p.name@ == Seq::<char>::empty() && p.last_name@ == Seq::<char>::empty()
            &&& p.birthday_time == 0 && p.account_create_date == 0 && p.last_save_time == 0
            &&& p.time_played_min == 0 && p.expansions == 0 && p.languages@ == Seq::<u8>::empty()
            &&& p.zone_id == 0 && p.zone_instance == 0
            &&& p.x_bits == 0 && p.y_bits == 0 && p.z_bits == 0 && p.heading_bits == 0
            &&& p.stand_state == 0 && p.anon == 0 && p.guild_id == 0 && p.guild_server_id == 0
        },
        Some(p0) => {
            let t1 = tail_after_name(s, p0);
            let t2 = tail_after_last(s, p0);
            let t3 = tail_after_langs(s, p0);
            &&& p.name@ == (if tail_reached(s, p0, 1) {
                latin1_chars(cstr_bytes(s.subrange(p0 + 4, p0 + 68)))
            } else {
                Seq::empty()
            })
            &&& p.last_name@ == (if tail_reached(s, p0, 2) {
                latin1_chars(cstr_bytes(s.subrange(t1 + 4, t1 + 36)))
            } else {
                Seq::empty()
            })
            &&& p.birthday_time == tail_u32(s, p0, 3, u32_le(s, t2))
            &&& p.account_create_date == tail_u32(s, p0, 4, u32_le(s, t2 + 4))
            &&& p.last_save_time == tail_u32(s, p0, 5, u32_le(s, t2 + 8))
            &&& p.time_played_min == tail_u32(s, p0, 6, u32_le(s, t2 + 12))
            &&& p.expansions == tail_u32(s, p0, 7, u32_le(s, t2 + 20))
            &&& p.languages@ == (if tail_reached(s, p0, 8) {
                s.subrange(t2 + 32, if t3 < s.len() { t3 } else { s.len() as int })
            } else {
                Seq::empty()
            })
            &&& p.zone_id == tail_u16(s, p0, 10, u16_le(s, t3))
            &&& p.zone_instance == tail_u16(s, p0, 11, u16_le(s, t3 + 2))
            &&& p.y_bits == tail_u32(s, p0, 12, u32_le(s, t3 + 4))
            &&& p.x_bits == tail_u32(s, p0, 13, u32_le(s, t3 + 8))
            &&& p.z_bits == tail_u32(s, p0, 14, u32_le(s, t3 + 12))
            &&& p.heading_bits == tail_u32(s, p0, 15, u32_le(s, t3 + 16))
            &&& p.stand_state == tail_u16(s, p0, 16, u16_be(s, t3 + 20))
            &&& p.anon == tail_u16(s, p0, 17, u16_be(s, t3 + 22))
            &&& p.guild_id == tail_u32(s, p0, 18, u32_le(s, t3 + 24))
            &&& p.guild_server_id == tail_u32(s, p0, 19, u32_le(s, t3 + 28))
        },
    }
}

/// Every field the Legends profile does not carry is zero / empty.
pub open spec fn profile_unset_fields(p: PlayerProfile) -> bool {
    &&& p.bytes_consumed == 0 && p.checksum == 0 && p.level1 == 0
    &&& p.bind0_zone_id == 0 && p.bind0_x_bits == 0 && p.bind0_y_bits == 0
    &&& p.bind0_z_bits == 0 && p.bind0_heading_bits == 0
    &&& p.deity == 0 && p.intoxication == 0 && p.points == 0 && p.mana == 0 && p.cur_hp == 0
    &&& p.disciplines@ == Seq::<u32>::empty() && p.recast_timers@ == Seq::<u32>::empty()
    &&& p.mem_spells@ == Seq::<i32>::empty() && p.spell_slot_refresh@ == Seq::<u32>::empty()
    &&& p.buff_spell_ids@ == Seq::<i32>::empty() && p.buff_durations@ == Seq::<i32>::empty()
    &&& p.aa_assigned == 0 && p.aa_unspent == 0 && p.endurance == 0 && p.exp_aa == 0
    &&& p.platinum_shared == 0 && p.career_tribute == 0 && p.current_tribute == 0
    &&& p.current_rad_crystals == 0 && p.career_rad_crystals == 0
    &&& p.current_ebon_crystals == 0 && p.career_ebon_crystals == 0 && p.autosplit == 0
    &&& p.ldon_guk_points == 0 && p.ldon_mir_points == 0 && p.ldon_mmc_points == 0
    &&& p.ldon_ruj_points == 0 && p.ldon_tak_points == 0 && p.ldon_avail_points == 0
}

/// The profile decoded from `s` (at least 34 bytes), field by field.
pub open spec fn profile_matches(s: Seq<u8>, p: PlayerProfile) -> bool {
    &&& p.gender == s[20] && p.race == u32_le(s, 21) && p.class_ == u32_le(s, 25)
    &&& p.class_mask == u32_le(s, 29) && p.level == s[33]
    &&& p.str_ == if_len(s, 990, u32_le(s, 962)) && p.sta == if_len(s, 990, u32_le(s, 966))
    &&& p.cha == if_len(s, 990, u32_le(s, 970)) && p.dex == if_len(s, 990, u32_le(s, 974))
    &&& p.int_ == if_len(s, 990, u32_le(s, 978)) && p.agi == if_len(s, 990, u32_le(s, 982))
    &&& p.wis == if_len(s, 990, u32_le(s, 986))
    &&& p.aa_ids@ == profile_aa_ids(s) && p.aa_values@ == profile_aa_values(s)
    &&& p.aa_spent == (if profile_aa_ok(s) { wrapping_sum(profile_aa_values(s)) } else { 0 })
    &&& p.skills@ == profile_skills(s)
    &&& p.spell_book@ == profile_spell_book(s)
    &&& profile_tail_fields(s, p)
    &&& p.stance == if_len(s, 33785, u32_le(s, 33777))
    &&& p.invocation == if_len(s, 33785, u32_le(s, 33781))
    &&& p.platinum == if_len(s, 33719, u32_le(s, 33687))
    &&& p.gold == if_len(s, 33719, u32_le(s, 33691))
    &&& p.silver == if_len(s, 33719, u32_le(s, 33695))
    &&& p.copper == if_len(s, 33719, u32_le(s, 33699))
    &&& p.platinum_cursor == if_len(s, 33719, u32_le(s, 33703))
    &&& p.gold_cursor == if_len(s, 33719, u32_le(s, 33707))
    &&& p.silver_cursor == if_len(s, 33719, u32_le(s, 33711))
    &&& p.copper_cursor == if_len(s, 33719, u32_le(s, 33715))
    &&& p.platinum_inventory == mirror_u32(s, 0) && p.gold_inventory == mirror_u32(s, 4)
    &&& p.silver_inventory == mirror_u32(s, 8) && p.copper_inventory == mirror_u32(s, 12)
    &&& p.platinum_bank == mirror_u32(s, 16) && p.gold_bank == mirror_u32(s, 20)
    &&& p.silver_bank == mirror_u32(s, 24) && p.copper_bank == mirror_u32(s, 28)
    &&& profile_unset_fields(p)
}

/// Offset of the first repeat of the carried purse at or after 33703.
fn find_purse_mirror(b: &[u8]) -> (r: Option<usize>)
    requires
        b@.len() >= 36277,
    ensures
        r matches Some(o) ==> first_purse_mirror_from(b@, 33703) == Some(o as int) && o + 16
            <= b@.len(),
        r is None ==> first_purse_mirror_from(b@, 33703) is None,
{
    let len = b.len();
    let last = len - 16;
    let mut o: usize = 33703;
    while o <= last
        invariant
            last + 16 == b@.len(),
            b@.len() <= usize::MAX,
            b@.len() >= 36277,
            33703 <= o,
            first_purse_mirror_from(b@, o as int) == first_purse_mirror_from(b@, 33703),
        decreases last + 1 - o,
    {
        let mut i: usize = 0;
        while i < 16 && b[o + i] == b[33687 + i]
            invariant
                o <= last,
                last + 16 == b@.len(),
                b@.len() <= usize::MAX,
                o + 16 <= b@.len(),
                b@.len() >= 36277,
                i <= 16,
                forall|j: int| 0 <= j < i ==> #[trigger] b@[o + j] == b@[carried_at() + j],
            decreases 16 - i,
        {
            i = i + 1;
        }
        if i == 16 {
            assert forall|j: int| 0 <= j < 16 implies #[trigger] b@.subrange(o as int, o + 16)[j]
                == b@.subrange(carried_at(), carried_at() + 16)[j] by {
                assert(b@[o + j] == b@[carried_at() + j]);
            }
            assert(b@.subrange(o as int, o + 16) =~= b@.subrange(carried_at(), carried_at() + 16));
            return Some(o);
        }
        assert(b@.subrange(o as int, o + 16)[i as int] != b@.subrange(carried_at(), carried_at() + 16)[i as int]);
        o = o + 1;
    }
    None
}

/// Decodes `OP_PlayerProfile` (Legends). Only a payload under 34 bytes is
/// rejected (`Short`); every later section is read when present and left
/// at its default otherwise.
#[verifier::rlimit(100)]
pub fn parse_player_profile(b: &[u8]) -> (r: Result<PlayerProfile, DecodeError>)
    ensures
        b@.len() < 34 ==> r == Err::<PlayerProfile, DecodeError>(DecodeError::Short(b@.len() as usize)),
        b@.len() >= 34 ==> (r matches Ok(p) && profile_matches(b@, p)),
        r matches Ok(p) ==> p.aa_ids@.len() == p.aa_values@.len() && p.aa_spent == wrapping_sum(
            p.aa_values@,
        ) && p.skills@.len() <= MAX_KNOWN_SKILLS,
{
    if b.len() < 34 {
        return Err(DecodeError::Short(b.len()));
    }
    let len = b.len();
    let mut prof = PlayerProfile {
        bytes_consumed: 0,
        checksum: 0,
        gender: b[20],
        race: rd_u32(b, 21),
        class_: rd_u32(b, 25),
        class_mask: rd_u32(b, 29),
        stance: 0,
        invocation: 0,
        level: b[33],
        level1: 0,
        bind0_zone_id: 0,
        bind0_x_bits: 0,
        bind0_y_bits: 0,
        bind0_z_bits: 0,
        bind0_heading_bits: 0,
        deity: 0,
        intoxication: 0,
        points: 0,
        mana: 0,
        cur_hp: 0,
        str_: 0,
        sta: 0,
        cha: 0,
        dex: 0,
        int_: 0,
        agi: 0,
        wis: 0,
        aa_ids: Vec::new(),
        aa_values: Vec::new(),
        skills: Vec::new(),
        disciplines: Vec::new(),
        recast_timers: Vec::new(),
        spell_book: Vec::new(),
        mem_spells: Vec::new(),
        spell_slot_refresh: Vec::new(),
        buff_spell_ids: Vec::new(),
        buff_durations: Vec::new(),
        platinum: 0,
        gold: 0,
        silver: 0,
        copper: 0,
        platinum_cursor: 0,
        gold_cursor: 0,
        silver_cursor: 0,
        copper_cursor: 0,
        aa_spent: 0,
        aa_assigned: 0,
        aa_unspent: 0,
        endurance: 0,
        exp_aa: 0,
        name: String::new(),
        last_name: String::new(),
        birthday_time: 0,
        account_create_date: 0,
        last_save_time: 0,
        time_played_min: 0,
        expansions: 0,
        languages: Vec::new(),
        zone_id: 0,
        zone_instance: 0,
        x_bits: 0,
        y_bits: 0,
        z_bits: 0,
        heading_bits: 0,
        stand_state: 0,
        anon: 0,
        guild_id: 0,
        guild_server_id: 0,
        platinum_inventory: 0,
        gold_inventory: 0,
        silver_inventory: 0,
        copper_inventory: 0,
        platinum_bank: 0,
        gold_bank: 0,
        silver_bank: 0,
        copper_bank: 0,
        platinum_shared: 0,
        career_tribute: 0,
        current_tribute: 0,
        current_rad_crystals: 0,
        career_rad_crystals: 0,
        current_ebon_crystals: 0,
        career_ebon_crystals: 0,
        autosplit: 0,
        ldon_guk_points: 0,
        ldon_mir_points: 0,
        ldon_mmc_points: 0,
        ldon_ruj_points: 0,
        ldon_tak_points: 0,
        ldon_avail_points: 0,
    };
    proof {
        lemma_profile_aa_shape(b@);
    }
    walk_profile_skills(b, &mut prof);
    if len >= 990 {
        prof.str_ = rd_u32(b, 962);
        prof.sta = rd_u32(b, 966);
        prof.cha = rd_u32(b, 970);
        prof.dex = rd_u32(b, 974);
        prof.int_ = rd_u32(b, 978);
        prof.agi = rd_u32(b, 982);
        prof.wis = rd_u32(b, 986);
    }
    if let Some(o) = find_profile_spellbook(b) {
        let mut book: Vec<i32> = Vec::new();
        let mut k: usize = 0;
        while k < SPELLBOOK_SLOTS
            invariant
                first_spellbook_from(b@, 0) == Some(o as int),
                o + 8 * SPELLBOOK_SLOTS <= b@.len(),
                b@.len() <= usize::MAX,
                k <= SPELLBOOK_SLOTS,
                book@ =~= Seq::new(k as nat, |j: int| crate::wire::as_i32(u32_le(b@, o + 8 * j))),
            decreases SPELLBOOK_SLOTS - k,
        {
            book.push(crate::wire::to_i32(rd_u32(b, o + k * 8)));
            k = k + 1;
        }
        prof.spell_book = book;
    }
    if let Some(p) = find_profile_name_block(b) {
        let t = read_profile_name_and_tail(b, p);
        prof.name = t.name;
        prof.last_name = t.last_name;
        prof.birthday_time = t.birthday_time;
        prof.account_create_date = t.account_create_date;
        prof.last_save_time = t.last_save_time;
        prof.time_played_min = t.time_played_min;
        prof.expansions = t.expansions;
        prof.languages = t.languages;
        prof.zone_id = t.zone_id;
        prof.zone_instance = t.zone_instance;
        prof.y_bits = t.y_bits;
        prof.x_bits = t.x_bits;
        prof.z_bits = t.z_bits;
        prof.heading_bits = t.heading_bits;
        prof.stand_state = t.stand_state;
        prof.anon = t.anon;
        prof.guild_id = t.guild_id;
        prof.guild_server_id = t.guild_server_id;
    }
    if len >= 33785 {
        prof.stance = rd_u32(b, 33777);
        prof.invocation = rd_u32(b, 33781);
    }
    if len >= 33719 {
        prof.platinum = rd_u32(b, 33687);
        prof.gold = rd_u32(b, 33691);
        prof.silver = rd_u32(b, 33695);
        prof.copper = rd_u32(b, 33699);
        prof.platinum_cursor = rd_u32(b, 33703);
        prof.gold_cursor = rd_u32(b, 33707);
        prof.silver_cursor = rd_u32(b, 33711);
        prof.copper_cursor = rd_u32(b, 33715);
    }
    if len >= 36277 {
        if prof.platinum != 0 || prof.gold != 0 || prof.silver != 0 || prof.copper != 0 {
            if let Some(off) = find_purse_mirror(b) {
                if len - off >= 32 {
                    prof.platinum_inventory = rd_u32(b, off);
                    prof.gold_inventory = rd_u32(b, off + 4);
                    prof.silver_inventory = rd_u32(b, off + 8);
                    prof.copper_inventory = rd_u32(b, off + 12);
                    prof.platinum_bank = rd_u32(b, off + 16);
                    prof.gold_bank = rd_u32(b, off + 20);
                    prof.silver_bank = rd_u32(b, off + 24);
                    prof.copper_bank = rd_u32(b, off + 28);
                }
            }
        }
    }
    Ok(prof)
}

/// A truncated profile keeps what it could read: cutting a payload short
/// (to 34 bytes or more) leaves the identity header as it was, and leaves
/// the base stats as they were whenever the cut still covers them.
pub proof fn lemma_truncation_keeps_identity(s: Seq<u8>, t: Seq<u8>)
    requires
        34 <= t.len() <= s.len(),
        t == s.take(t.len() as int),
    ensures
        t[20] == s[20],
        u32_le(t, 21) == u32_le(s, 21),
        u32_le(t, 25) == u32_le(s, 25),
        u32_le(t, 29) == u32_le(s, 29),
        t[33] == s[33],
        t.len() >= 990 ==> forall|k: int|
            0 <= k < 7 ==> #[trigger] if_len(t, 990, u32_le(t, 962 + 4 * k)) == if_len(
                s,
                990,
                u32_le(s, 962 + 4 * k),
            ),
{
    assert forall|i: int| 0 <= i < t.len() implies t[i] == s[i] by {
        assert(s.take(t.len() as int)[i] == s[i]);
    }
}

/// The fields after the name block's last name, in wire order: four
/// consecutive little-endian `u32` timestamps (birthday, account creation,
/// last save, minutes played), then 4 unread bytes and the expansions word,
/// then the language count 28 bytes past the last name and that many
/// language bytes, then the zone id and instance (`u16`s) and the y, x, z and
/// heading words. Each is read once the tail reaches it. (The name and the
/// last name are each a `u32` width then that many bytes.)
pub proof fn lemma_profile_tail_order(s: Seq<u8>, p: PlayerProfile)
    requires
        s.len() >= 34,
        profile_matches(s, p),
        first_name_block_from(s, 0) is Some,
    ensures
        ({
            let p0 = first_name_block_from(s, 0).unwrap();
            let n1 = p0 + 4 + u32_le(s, p0);
            let e = n1 + 4 + u32_le(s, n1);
            let z = e + 32 + u32_le(s, e + 28);
            &&& tail_reached(s, p0, 6) ==> p.birthday_time == u32_le(s, e)
                && p.account_create_date == u32_le(s, e + 4) && p.last_save_time == u32_le(
                s,
                e + 8,
            ) && p.time_played_min == u32_le(s, e + 12)
            &&& tail_reached(s, p0, 7) ==> p.expansions == u32_le(s, e + 20)
            &&& tail_reached(s, p0, 15) ==> p.zone_id == u16_le(s, z) && p.zone_instance
                == u16_le(s, z + 2) && p.y_bits == u32_le(s, z + 4) && p.x_bits == u32_le(
                s,
                z + 8,
            ) && p.z_bits == u32_le(s, z + 12) && p.heading_bits == u32_le(s, z + 16)
        }),
{
    let p0 = first_name_block_from(s, 0).unwrap();
    lemma_tail_reached_down(s, p0, 6, 3);
    lemma_tail_reached_down(s, p0, 7, 3);
    lemma_tail_reached_down(s, p0, 15, 3);
    lemma_tail_reached_down(s, p0, 15, 7);
}

/// A tail step reached means every earlier step was.
proof fn lemma_tail_reached_down(s: Seq<u8>, p0: int, k: int, m: int)
    requires
        m <= k,
    ensures
        tail_reached(s, p0, k) ==> forall|j: int| m <= j <= k ==> #[trigger] tail_reached(s, p0, j),
    decreases k - m,
{
    if m < k {
        lemma_tail_reached_down(s, p0, k - 1, m);
    }
}


} // verus!
