//! `OP_NpcMoveUpdate`: a 16..24 byte payload in MSB-first bit-stream
//! packing, shifted on the way out (coordinates `>> 3`, deltas `>> 2`).
//!
//! ```text
//!   16 bits — spawnId
//!   32 bits — reserved
//!    6 bits — fieldSpecifier bitmask
//!   19 bits — y (sign-magnitude: 1 sign bit, 18 magnitude bits)
//!   19 bits — x
//!   19 bits — z
//!   12 bits — path bearing toward the next waypoint, NOT a facing
//!   [optional, in this order if the corresponding mask bit is set]
//!     0x01  → 12 bits pitch (read, unused)
//!     0x02  → 10 bits deltaHeading
//!     0x04  → 10 bits velocity / animation
//!     0x08  → 13 bits deltaY
//!     0x10  → 13 bits deltaX
//!     0x20  → 13 bits deltaZ
//! ```
//! A read past the end yields 0 and does not advance, so a short packet
//! degrades to zeros in its optional fields.
use vstd::prelude::*;
use crate::wire::floor_div;

verus! {

/// A decoded NPC movement update.
#[derive(Debug, Clone, Copy, PartialEq, Eq)]
pub struct NpcMoveUpdate {
    pub spawn_id: u16,
    pub x: i16,
    pub y: i16,
    pub z: i16,
    /// This channel carries no facing — always 0.
    pub heading: i16,
    /// The 12-bit angle: a bearing toward the next waypoint, not a facing.
    pub path_bearing: i16,
    pub delta_x: i16,
    pub delta_y: i16,
    pub delta_z: i16,
    pub delta_heading: i8,
    pub animation: i16,
    pub has_delta_x: bool,
    pub has_delta_y: bool,
    pub has_delta_z: bool,
    pub has_delta_heading: bool,
    pub has_animation: bool,
}

/// Why an NPC movement update did not decode.
#[derive(Debug, Clone, Copy, PartialEq, Eq)]
pub enum NpcMoveUpdateError {
    /// Payload outside 16..=24 bytes; carries its length.
    BadLength(usize),
    /// The bit stream ran out after this many bits.
    Truncated(usize),
    /// A coordinate outside the ±16000 game world.
    OutOfRange(i16),
}

/// `2^e` for `0 <= e`.
pub open spec fn pow2(e: nat) -> nat
    decreases e,
{
    if e == 0 {
        1
    } else {
        2 * pow2((e - 1) as nat)
    }
}

/// Bit `i` of the stream: bit `7 - i % 8` of byte `i / 8` (MSB first).
pub open spec fn stream_bit(s: Seq<u8>, i: int) -> nat {
    ((s[i / 8] as nat / pow2((7 - i % 8) as nat)) % 2) as nat
}

/// The `n` bits from bit `start`, most significant first, as a number.
pub open spec fn stream_bits(s: Seq<u8>, start: int, n: nat) -> nat
    decreases n,
{
    if n == 0 {
        0
    } else {
        2 * stream_bits(s, start, (n - 1) as nat) + stream_bit(s, start + n - 1)
    }
}

/// An unsigned read of `n` bits at `cur`: the value and the new position;
/// `(0, cur)` when the read would run past the stream.
pub open spec fn read_uint_spec(s: Seq<u8>, cur: int, n: nat) -> (nat, int) {
    if cur + n > 8 * s.len() {
        (0, cur)
    } else {
        (stream_bits(s, cur, n), cur + n)
    }
}

/// A sign-magnitude read of `n` bits: a sign bit, then `n - 1` magnitude bits.
pub open spec fn read_int_spec(s: Seq<u8>, cur: int, n: nat) -> (int, int) {
    let (sign, c1) = read_uint_spec(s, cur, 1);
    let (mag, c2) = read_uint_spec(s, c1, (n - 1) as nat);
    (if sign != 0 { -(mag as int) } else { mag as int }, c2)
}

proof fn lemma_pow2_pos(e: nat)
    ensures
        pow2(e) >= 1,
    decreases e,
{
    if e > 0 {
        lemma_pow2_pos((e - 1) as nat);
    }
}

proof fn lemma_bits_bound(s: Seq<u8>, start: int, n: nat)
    ensures
        stream_bits(s, start, n) < pow2(n),
    decreases n,
{
    if n > 0 {
        lemma_bits_bound(s, start, (n - 1) as nat);
        assert(stream_bit(s, start + n - 1) <= 1);
    }
}

/// MSB-first bit reader over a payload. A read past the end yields 0 and
/// does not advance.
pub struct BitStream<'a> {
    data: &'a [u8],
    /// Index of the next bit to read.
    cur: usize,
    /// Bit length of the buffer.
    total: usize,
}

impl<'a> BitStream<'a> {
    /// The reader's position is within its stream.
    pub closed spec fn wf(&self) -> bool {
        self.cur <= self.total && self.total == 8 * self.data@.len()
    }

    /// The bytes being read.
    pub closed spec fn stream(&self) -> Seq<u8> {
        self.data@
    }

    /// Index of the next bit to read.
    pub closed spec fn pos(&self) -> int {
        self.cur as int
    }

    /// A reader at the first bit of `data`.
    pub fn new(data: &'a [u8]) -> (r: Self)
        requires
            8 * data@.len() <= usize::MAX,
        ensures
            r.wf(),
            r.stream() == data@,
            r.pos() == 0,
    {
        BitStream { data, cur: 0, total: data.len() * 8 }
    }

    /// Bit `i` of the stream.
    fn bit(&self, i: usize) -> (r: u64)
        requires
            i < self.total,
            self.total == 8 * self.data@.len(),
        ensures
            r == stream_bit(self.data@, i as int),
    {
        let byte = self.data[i / 8] as u64;
        let k = 7 - i % 8;
        let d: u64 = if k == 0 {
            1
        } else if k == 1 {
            2
        } else if k == 2 {
            4
        } else if k == 3 {
            8
        } else if k == 4 {
            16
        } else if k == 5 {
            32
        } else if k == 6 {
            64
        } else {
            128
        };
        assert(d == pow2(k as nat)) by {
            reveal_with_fuel(pow2, 8);
        }
        (byte / d) % 2
    }

    /// Reads `bit_count` bits MSB-first; 0 (without advancing) on an under-read.
    pub fn read_uint(&mut self, bit_count: usize) -> (r: u32)
        requires
            bit_count <= 32,
            old(self).wf(),
        ensures
            final(self).wf(),
            final(self).stream() == old(self).stream(),
            (r as nat, final(self).pos()) == read_uint_spec(
                old(self).stream(),
                old(self).pos(),
                bit_count as nat,
            ),
            (r as nat) < pow2(bit_count as nat),
    {
        if bit_count > self.total - self.cur {
            proof {
                lemma_pow2_pos(bit_count as nat);
            }
            return 0;
        }
        let mut out: u64 = 0;
        let mut i: usize = 0;
        while i < bit_count
            invariant
                bit_count <= 32,
                self.cur + bit_count <= self.total,
                self.total == 8 * self.data@.len(),
                i <= bit_count,
                out == stream_bits(self.data@, self.cur as int, i as nat),
            decreases bit_count - i,
        {
            proof {
                lemma_bits_bound(self.data@, self.cur as int, i as nat);
                lemma_pow2_32();
                lemma_pow2_mono(i as nat, 31);
            }
            let bit = self.bit(self.cur + i);
            out = out * 2 + bit;
            i = i + 1;
        }
        proof {
            lemma_bits_bound(self.data@, self.cur as int, bit_count as nat);
            lemma_pow2_mono(bit_count as nat, 32);
            lemma_pow2_32();
        }
        self.cur = self.cur + bit_count;
        out as u32
    }

    /// Reads a sign-magnitude integer of `bit_count` bits: a sign bit, then
    /// `bit_count - 1` magnitude bits (not two's complement).
    pub fn read_int(&mut self, bit_count: usize) -> (r: i32)
        requires
            1 <= bit_count <= 32,
            old(self).wf(),
        ensures
            final(self).wf(),
            final(self).stream() == old(self).stream(),
            (r as int, final(self).pos()) == read_int_spec(
                old(self).stream(),
                old(self).pos(),
                bit_count as nat,
            ),
            -(pow2((bit_count - 1) as nat) as int) < r < pow2((bit_count - 1) as nat),
    {
        let sign = self.read_uint(1);
        let mag = self.read_uint(bit_count - 1);
        proof {
            lemma_pow2_mono((bit_count - 1) as nat, 31);
            lemma_pow2_32();
        }
        if sign != 0 {
            -(mag as i32)
        } else {
            mag as i32
        }
    }
}

/// An optional sign-magnitude field: read when `present`, else `(0, cur)`.
pub open spec fn opt_read(s: Seq<u8>, cur: int, present: bool, n: nat) -> (int, int) {
    if present {
        read_int_spec(s, cur, n)
    } else {
        (0, cur)
    }
}

/// The sign-magnitude value of the `n` bits at `c` (sign bit first).
pub open spec fn sm_value(s: Seq<u8>, c: int, n: nat) -> int {
    if stream_bit(s, c) != 0 {
        -(stream_bits(s, c + 1, (n - 1) as nat) as int)
    } else {
        stream_bits(s, c + 1, (n - 1) as nat) as int
    }
}

/// The field-specifier bitmask.
pub open spec fn npc_field_spec(s: Seq<u8>) -> u8 {
    stream_bits(s, 48, 6) as u8
}

/// The optional fields in wire order, each `(raw value, position after)`:
/// pitch, delta heading, animation, delta y, delta x, delta z.
pub open spec fn npc_optional(s: Seq<u8>) -> Seq<(int, int)> {
    let f = npc_field_spec(s);
    let p = opt_read(s, 123, f & 0x01 != 0, 12);
    let dh = opt_read(s, p.1, f & 0x02 != 0, 10);
    let an = opt_read(s, dh.1, f & 0x04 != 0, 10);
    let dy = opt_read(s, an.1, f & 0x08 != 0, 13);
    let dx = opt_read(s, dy.1, f & 0x10 != 0, 13);
    let dz = opt_read(s, dx.1, f & 0x20 != 0, 13);
    seq![p, dh, an, dy, dx, dz]
}

/// `|v| > 16000`.
pub open spec fn out_of_world(v: i16) -> bool {
    v > 16000 || v < -16000
}

/// The coordinates: `(x, y, z)`, each the 19-bit field `>> 3`.
pub open spec fn npc_coords(s: Seq<u8>) -> (i16, i16, i16) {
    (
        (sm_value(s, 73, 19) / 8) as i16,
        (sm_value(s, 54, 19) / 8) as i16,
        (sm_value(s, 92, 19) / 8) as i16,
    )
}

/// Decodes `OP_NpcMoveUpdate`. The first coordinate (in x, y, z order)
/// outside ±16000 is reported as `OutOfRange`.
pub fn parse_npc_move_update(bytes: &[u8]) -> (r: Result<NpcMoveUpdate, NpcMoveUpdateError>)
    ensures
        r matches Ok(m) ==> -16000 <= m.x <= 16000 && -16000 <= m.y <= 16000 && -16000 <= m.z
            <= 16000,
        bytes@.len() < 16 || bytes@.len() > 24 ==> r == Err::<NpcMoveUpdate, NpcMoveUpdateError>(
            NpcMoveUpdateError::BadLength(bytes@.len() as usize),
        ),
        16 <= bytes@.len() <= 24 ==> ({
            let (x, y, z) = npc_coords(bytes@);
            &&& out_of_world(x) ==> r == Err::<NpcMoveUpdate, NpcMoveUpdateError>(
                NpcMoveUpdateError::OutOfRange(x),
            )
            &&& !out_of_world(x) && out_of_world(y) ==> r == Err::<
                NpcMoveUpdate,
                NpcMoveUpdateError,
            >(NpcMoveUpdateError::OutOfRange(y))
            &&& !out_of_world(x) && !out_of_world(y) && out_of_world(z) ==> r == Err::<
                NpcMoveUpdate,
                NpcMoveUpdateError,
            >(NpcMoveUpdateError::OutOfRange(z))
            &&& !out_of_world(x) && !out_of_world(y) && !out_of_world(z) ==> (r matches Ok(m) && {
                let o = npc_optional(bytes@);
                let f = npc_field_spec(bytes@);
                &&& m.spawn_id == stream_bits(bytes@, 0, 16)
                &&& m.x == x && m.y == y && m.z == z
                &&& m.heading == 0
                &&& m.path_bearing == sm_value(bytes@, 111, 12)
                &&& m.delta_heading == o[1].0 / 4
                &&& m.animation == o[2].0 / 4
                &&& m.delta_y == o[3].0 / 4
                &&& m.delta_x == o[4].0 / 4
                &&& m.delta_z == o[5].0 / 4
                &&& m.has_delta_heading == (f & 0x02 != 0)
                &&& m.has_animation == (f & 0x04 != 0)
                &&& m.has_delta_y == (f & 0x08 != 0)
                &&& m.has_delta_x == (f & 0x10 != 0)
                &&& m.has_delta_z == (f & 0x20 != 0)
            })
        }),
{
    if bytes.len() < 16 || bytes.len() > 24 {
        return Err(NpcMoveUpdateError::BadLength(bytes.len()));
    }
    let mut s = BitStream::new(bytes);
    let ghost b = bytes@;
    proof {
        lemma_pow2_small();
        lemma_pow2_32();
        lemma_read_int_in_bounds(b, 54, 19);
        lemma_read_int_in_bounds(b, 73, 19);
        lemma_read_int_in_bounds(b, 92, 19);
        lemma_read_int_in_bounds(b, 111, 12);
    }
    let spawn_id = s.read_uint(16) as u16;
    let _garbage = s.read_uint(32);
    let field_specifier = s.read_uint(6) as u8;
    assert(s.cur == 54);
    let y = floor_div(s.read_int(19), 8) as i16;
    let x = floor_div(s.read_int(19), 8) as i16;
    let z = floor_div(s.read_int(19), 8) as i16;
    let path_bearing = s.read_int(12) as i16;
    assert(s.cur == 123);
    assert(field_specifier == npc_field_spec(b));
    assert((x, y, z) == npc_coords(b));
    if x > 16000 || x < -16000 {
        return Err(NpcMoveUpdateError::OutOfRange(x));
    }
    if y > 16000 || y < -16000 {
        return Err(NpcMoveUpdateError::OutOfRange(y));
    }
    if z > 16000 || z < -16000 {
        return Err(NpcMoveUpdateError::OutOfRange(z));
    }
    let mut delta_x: i16 = 0;
    let mut delta_y: i16 = 0;
    let mut delta_z: i16 = 0;
    let mut delta_heading: i8 = 0;
    let mut animation: i16 = 0;
    if field_specifier & 0x01 != 0 {
        let _pitch = s.read_int(12);
    }
    if field_specifier & 0x02 != 0 {
        delta_heading = floor_div(s.read_int(10), 4) as i8;
    }
    if field_specifier & 0x04 != 0 {
        animation = floor_div(s.read_int(10), 4) as i16;
    }
    if field_specifier & 0x08 != 0 {
        delta_y = floor_div(s.read_int(13), 4) as i16;
    }
    if field_specifier & 0x10 != 0 {
        delta_x = floor_div(s.read_int(13), 4) as i16;
    }
    if field_specifier & 0x20 != 0 {
        delta_z = floor_div(s.read_int(13), 4) as i16;
    }
    if s.cur > s.total {
        return Err(NpcMoveUpdateError::Truncated(s.cur));
    }
    Ok(
        NpcMoveUpdate {
            spawn_id,
            x,
            y,
            z,
            heading: 0,
            path_bearing,
            delta_x,
            delta_y,
            delta_z,
            delta_heading,
            animation,
            has_delta_x: field_specifier & 0x10 != 0,
            has_delta_y: field_specifier & 0x08 != 0,
            has_delta_z: field_specifier & 0x20 != 0,
            has_delta_heading: field_specifier & 0x02 != 0,
            has_animation: field_specifier & 0x04 != 0,
        },
    )
}

proof fn lemma_pow2_small()
    ensures
        pow2(0) == 1,
        pow2(1) == 2,
        pow2(6) == 64,
        pow2(9) == 512,
        pow2(11) == 2048,
        pow2(12) == 4096,
        pow2(16) == 65536,
        pow2(18) == 262144,
{
    reveal_with_fuel(pow2, 19);
}

/// A sign-magnitude read that fits in the stream reads `sm_value` and
/// advances by `n`.
proof fn lemma_read_int_in_bounds(s: Seq<u8>, c: int, n: nat)
    requires
        1 <= n,
        0 <= c,
        c + n <= 8 * s.len(),
    ensures
        read_int_spec(s, c, n) == (sm_value(s, c, n), c + n),
{
    reveal_with_fuel(stream_bits, 2);
}

proof fn lemma_pow2_32()
    ensures
        pow2(31) == 0x8000_0000,
        pow2(32) == 0x1_0000_0000,
{
    assert(pow2(8) == 256) by {
        reveal_with_fuel(pow2, 9);
    }
    assert(pow2(16) == 65536) by {
        lemma_pow2_add(8, 8);
    }
    assert(pow2(31) == 0x8000_0000) by {
        lemma_pow2_add(16, 8);
        lemma_pow2_add(24, 7);
        reveal_with_fuel(pow2, 8);
    }
    lemma_pow2_add(31, 1);
}

proof fn lemma_pow2_add(a: nat, b: nat)
    ensures
        pow2(a + b) == pow2(a) * pow2(b),
    decreases b,
{
    if b == 0 {
        assert(pow2(0) == 1);
        assert(a + b == a);
    } else {
        lemma_pow2_add(a, (b - 1) as nat);
        assert((a + b - 1) as nat == a + (b - 1) as nat);
        assert(pow2(a + b) == 2 * pow2((a + b - 1) as nat));
        assert(pow2(a) * pow2(b) == pow2(a) * (2 * pow2((b - 1) as nat)));
        assert(pow2(a) * (2 * pow2((b - 1) as nat)) == 2 * (pow2(a) * pow2((b - 1) as nat))) by (nonlinear_arith);
    }
}

proof fn lemma_pow2_mono(a: nat, b: nat)
    requires
        a <= b,
    ensures
        pow2(a) <= pow2(b),
    decreases b - a,
{
    if a < b {
        lemma_pow2_mono(a, (b - 1) as nat);
        lemma_pow2_pos((b - 1) as nat);
    }
}

} // verus!
