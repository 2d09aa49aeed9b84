//! Little-endian and bit-level reads over payload bytes, stated once as spec
//! functions and implemented by bounds-checked exec readers.
use vstd::prelude::*;

verus! {

/// `u16` stored little-endian at byte offset `o`.
pub open spec fn u16_le(s: Seq<u8>, o: int) -> u16 {
    (s[o] as int + 256 * (s[o + 1] as int)) as u16
}

/// `u16` stored big-endian at byte offset `o`.
pub open spec fn u16_be(s: Seq<u8>, o: int) -> u16 {
    (256 * (s[o] as int) + s[o + 1] as int) as u16
}

/// `u32` stored little-endian at byte offset `o`.
pub open spec fn u32_le(s: Seq<u8>, o: int) -> u32 {
    (s[o] as int + 256 * (s[o + 1] as int) + 65536 * (s[o + 2] as int) + 16777216 * (
    s[o + 3] as int)) as u32
}

/// `u64` stored little-endian at byte offset `o`.
pub open spec fn u64_le(s: Seq<u8>, o: int) -> u64 {
    (u32_le(s, o) as int + 4294967296 * (u32_le(s, o + 4) as int)) as u64
}

/// Two's-complement reading of a 32-bit word.
pub open spec fn as_i32(v: u32) -> i32 {
    if v < 0x8000_0000 {
        v as i32
    } else {
        (v as int - 0x1_0000_0000) as i32
    }
}

/// Two's-complement reading of a 16-bit word.
pub open spec fn as_i16(v: u16) -> i16 {
    if v < 0x8000 {
        v as i16
    } else {
        (v as int - 0x1_0000) as i16
    }
}

/// Two's-complement reading of a 64-bit word.
pub open spec fn as_i64(v: u64) -> i64 {
    if v < 0x8000_0000_0000_0000 {
        v as i64
    } else {
        (v as int - 0x1_0000_0000_0000_0000) as i64
    }
}

/// `i64` stored little-endian at byte offset `o`.
pub open spec fn i64_le(s: Seq<u8>, o: int) -> i64 {
    as_i64(u64_le(s, o))
}

/// `i16` stored little-endian at byte offset `o`.
pub open spec fn i16_le(s: Seq<u8>, o: int) -> i16 {
    as_i16(u16_le(s, o))
}

/// Two's-complement reading of a field value `v` whose sign bit is worth
/// `half` (so the field spans `2 * half` values).
pub open spec fn sign_extend(v: int, half: int) -> int {
    if v >= half {
        v - 2 * half
    } else {
        v
    }
}

/// Index of the first `x` at or after `from`, or `s.len()` when there is none.
pub open spec fn find_byte(s: Seq<u8>, from: int, x: u8) -> int
    decreases s.len() - from,
{
    if from < 0 || from >= s.len() {
        s.len() as int
    } else if s[from] == x {
        from
    } else {
        find_byte(s, from + 1, x)
    }
}

/// What `find_byte` returns: the first match at or after `from`, or the end.
pub proof fn lemma_find_byte(s: Seq<u8>, from: int, x: u8)
    requires
        0 <= from <= s.len(),
    ensures
        from <= find_byte(s, from, x) <= s.len(),
        forall|k: int| from <= k < find_byte(s, from, x) ==> s[k] != x,
        find_byte(s, from, x) < s.len() ==> s[find_byte(s, from, x)] == x,
    decreases s.len() - from,
{
    if from < s.len() && s[from] != x {
        lemma_find_byte(s, from + 1, x);
    }
}

/// Reads the little-endian `u16` at `o`.
pub fn rd_u16(b: &[u8], o: usize) -> (v: u16)
    requires
        o + 2 <= b@.len(),
    ensures
        v == u16_le(b@, o as int),
{
    (b[o] as u16) + (b[o + 1] as u16) * 256
}

/// Reads the big-endian `u16` at `o`.
pub fn rd_u16_be(b: &[u8], o: usize) -> (v: u16)
    requires
        o + 2 <= b@.len(),
    ensures
        v == u16_be(b@, o as int),
{
    (b[o] as u16) * 256 + (b[o + 1] as u16)
}

/// Reads the little-endian `u32` at `o`.
pub fn rd_u32(b: &[u8], o: usize) -> (v: u32)
    requires
        o + 4 <= b@.len(),
    ensures
        v == u32_le(b@, o as int),
{
    (b[o] as u32) + (b[o + 1] as u32) * 256 + (b[o + 2] as u32) * 65536 + (b[o + 3] as u32)
        * 16777216
}

/// Reads the little-endian `u64` at `o`.
pub fn rd_u64(b: &[u8], o: usize) -> (v: u64)
    requires
        o + 8 <= b@.len(),
    ensures
        v == u64_le(b@, o as int),
{
    let _n = b.len();
    let lo = rd_u32(b, o);
    let hi = rd_u32(b, o + 4);
    (lo as u64) + (hi as u64) * 4294967296
}

/// Reinterprets a 32-bit word as two's-complement.
pub fn to_i32(v: u32) -> (r: i32)
    ensures
        r == as_i32(v),
{
    if v < 0x8000_0000 {
        v as i32
    } else {
        ((v - 0x8000_0000) as i32) - 0x7fff_ffff - 1
    }
}

/// Reinterprets a 16-bit word as two's-complement.
pub fn to_i16(v: u16) -> (r: i16)
    ensures
        r == as_i16(v),
{
    if v < 0x8000 {
        v as i16
    } else {
        ((v - 0x8000) as i16) - 0x7fff - 1
    }
}

/// Reinterprets a 64-bit word as two's-complement.
pub fn to_i64(v: u64) -> (r: i64)
    ensures
        r == as_i64(v),
{
    if v < 0x8000_0000_0000_0000 {
        v as i64
    } else {
        ((v - 0x8000_0000_0000_0000) as i64) - 0x7fff_ffff_ffff_ffff - 1
    }
}

/// Reads the little-endian `i64` at `o`.
pub fn rd_i64(b: &[u8], o: usize) -> (v: i64)
    requires
        o + 8 <= b@.len(),
    ensures
        v == i64_le(b@, o as int),
{
    to_i64(rd_u64(b, o))
}

/// Reads the little-endian `i16` at `o`.
pub fn rd_i16(b: &[u8], o: usize) -> (v: i16)
    requires
        o + 2 <= b@.len(),
    ensures
        v == i16_le(b@, o as int),
{
    to_i16(rd_u16(b, o))
}

/// Index of the first `x` at or after `from`, or `b.len()`.
pub fn scan_byte(b: &[u8], from: usize, x: u8) -> (r: usize)
    requires
        from <= b@.len(),
    ensures
        r == find_byte(b@, from as int, x),
        from <= r <= b@.len(),
{
    let mut i = from;
    while i < b.len() && b[i] != x
        invariant
            from <= i <= b@.len(),
            find_byte(b@, i as int, x) == find_byte(b@, from as int, x),
        decreases b@.len() - i,
    {
        i = i + 1;
    }
    i
}

} // verus!

verus! {

/// `p + count * width <= len`, computed without overflow.
pub fn span_fits(len: usize, p: usize, count: usize, width: usize) -> (r: bool)
    requires
        p <= len,
        width > 0,
    ensures
        r == (p + count * width <= len),
{
    let room = (len - p) / width;
    proof {
        let c = count as int;
        let w = width as int;
        let d = (len - p) as int;
        assert(c <= d / w <==> c * w <= d) by (nonlinear_arith)
            requires
                w > 0,
                d >= 0,
                c >= 0,
        ;
    }
    count <= room
}

/// `count` little-endian `u32`s at `start`, `stride` bytes apart.
pub open spec fn u32_array(s: Seq<u8>, start: int, stride: int, count: nat) -> Seq<u32> {
    Seq::new(count, |k: int| u32_le(s, start + stride * k))
}

/// `(w >> shift) & mask`: a bit field of a 64-bit word.
pub fn bit_field(w: u64, shift: u64, mask: u64) -> (r: u64)
    requires
        shift < 64,
    ensures
        r == (w >> shift) & mask,
        r <= mask,
{
    assert((w >> shift) & mask <= mask) by (bit_vector);
    (w >> shift) & mask
}

/// The two's-complement reading of a field value `v` whose sign bit is
/// worth `half`.
pub fn sext(v: u64, half: u64) -> (r: i32)
    requires
        0 < half <= 0x1000_0000,
        v < 2 * half,
    ensures
        r == sign_extend(v as int, half as int),
{
    if v >= half {
        (v as i32) - 2 * (half as i32)
    } else {
        v as i32
    }
}

/// `v / d` rounded toward negative infinity (an arithmetic right shift by
/// `log2 d`), for a `v` that is not `i32::MIN`.
pub fn floor_div(v: i32, d: i32) -> (r: i32)
    requires
        d > 0,
        v > i32::MIN,
    ensures
        r == v as int / d as int,
{
    if v >= 0 {
        v / d
    } else {
        let m = -v;
        let q = (m - 1) / d + 1;
        proof {
            let mi = m as int;
            let di = d as int;
            assert(-mi / di == -((mi - 1) / di + 1)) by (nonlinear_arith)
                requires
                    di > 0,
                    mi > 0,
            ;
        }
        -q
    }
}

} // verus!
