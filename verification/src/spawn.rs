//! `OP_ZoneSpawns` on Legends: one spawn per packet, walked front to back.
//!
//! ```text
//!   name\0, u32 id, u8 level, 16 skipped, u8 npc, u32 miscData, 4 pad,
//!   u8 otherData, 8 skipped, u8 charProperties + that many u32 (first is
//!   the body type), u8 curHp, 37 skipped, u32 race, u8 holding, u32 deity,
//!   u32 guildId, u32 guildServerId, u32 class, u32 classMask, 1 skipped,
//!   u8 state, u8 light, 1 skipped, lastName\0, 2 skipped, u32 petOwnerId,
//!   49 (NPC) or 37 skipped, equipment (220 bytes for PCs and a few humanoid
//!   races, else 60), 5 position words (x:19@10 of word 2, y:19@10 of word 0,
//!   z:19@0 of word 4, each signed ×8 fixed point), then title\0 and suffix\0
//!   when otherData bits 4 / 5 are set.
//! ```
use vstd::prelude::*;
use crate::decode_error::DecodeError;
use crate::text::{latin1, latin1_chars};
use crate::wire::{find_byte, lemma_find_byte, rd_u32, u32_le, sign_extend};

verus! {

/// The Legends-relevant subset of a spawn.
#[derive(Debug, Clone, PartialEq, Eq, Default)]
pub struct ZoneSpawn {
    pub id: u16,
    pub name: String,
    pub last_name: String,
    pub title: String,
    pub suffix: String,
    pub x: i16,
    pub y: i16,
    pub z: i16,
    /// 2048-step heading; the position block carries no facing, so 0.
    pub heading: u16,
    pub level: u8,
    /// HP percentage.
    pub cur_hp: u8,
    /// Always 100: `cur_hp` is a percentage.
    pub max_hp: u8,
    pub race: u32,
    pub class_: u32,
    /// Multiclass bitmask (bit N = class N).
    pub class_mask: u32,
    pub deity: u32,
    pub guild_id: u32,
    pub guild_server_id: u32,
    pub pet_owner_id: u32,
    pub npc: u8,
    pub body_type: u32,
    pub holding: u8,
    pub state: u8,
    pub light: u8,
}

/// Signed 19-bit ×8 fixed-point coordinate in the low 19 bits of `w`, in
/// whole game units (rounded toward negative infinity).
pub open spec fn pos19(w: u32) -> i16 {
    (sign_extend((w as int) % 0x80000, 0x40000) / 8) as i16
}

/// Decodes the low 19 bits of `w` as a signed ×8 fixed-point coordinate.
pub fn pos19_word(w: u32) -> (r: i16)
    ensures
        r == pos19(w),
{
    let v = w % 0x80000;
    let q = v / 8;
    if v >= 0x40000 {
        assert((v as int - 0x80000) / 8 == q as int - 65536);
        (q as i32 - 65536) as i16
    } else {
        q as i16
    }
}

/// End of the name (its NUL, or the payload end).
pub open spec fn spawn_name_end(s: Seq<u8>) -> int {
    find_byte(s, 0, 0)
}

/// Offset just past the name.
pub open spec fn spawn_base(s: Seq<u8>) -> int {
    spawn_name_end(s) + 1
}

/// Number of `u32` character properties.
pub open spec fn spawn_char_props(s: Seq<u8>) -> int {
    s[spawn_base(s) + 39] as int
}

/// Offset of `curHp`, past the property list.
pub open spec fn spawn_hp_at(s: Seq<u8>) -> int {
    spawn_base(s) + 40 + 4 * spawn_char_props(s)
}

/// End of the last name (its NUL, or the payload end).
pub open spec fn spawn_last_end(s: Seq<u8>) -> int {
    find_byte(s, spawn_hp_at(s) + 67, 0)
}

/// The NPC byte.
pub open spec fn spawn_npc(s: Seq<u8>) -> u8 {
    s[spawn_base(s) + 21]
}

/// The race.
pub open spec fn spawn_race(s: Seq<u8>) -> u32 {
    u32_le(s, spawn_hp_at(s) + 38)
}

/// The client reads the full 9-slot equipment block for PCs and a few
/// humanoid NPC races, the 2-slot one otherwise.
pub open spec fn full_equipment(npc: u8, race: u32) -> bool {
    npc == 0 || race <= 12 || race == 128 || race == 130 || race == 330 || race == 522
}

/// Offset of the five position words.
pub open spec fn spawn_pos_at(s: Seq<u8>) -> int {
    spawn_last_end(s) + 1 + 6 + (if spawn_npc(s) == 1 { 49int } else { 37int }) + (if full_equipment(
        spawn_npc(s),
        spawn_race(s),
    ) {
        220int
    } else {
        60int
    })
}

/// The `otherData` flag byte.
pub open spec fn spawn_other(s: Seq<u8>) -> u8 {
    s[spawn_base(s) + 30]
}

/// A title follows the position block.
pub open spec fn spawn_has_title(s: Seq<u8>) -> bool {
    spawn_other(s) & 0x10 != 0
}

/// A suffix follows the title (or the position block).
pub open spec fn spawn_has_suffix(s: Seq<u8>) -> bool {
    spawn_other(s) & 0x20 != 0
}

/// End of the title text.
pub open spec fn spawn_title_end(s: Seq<u8>) -> int {
    find_byte(s, spawn_pos_at(s) + 20, 0)
}

/// Where the suffix text starts.
pub open spec fn spawn_suffix_at(s: Seq<u8>) -> int {
    if spawn_has_title(s) {
        spawn_title_end(s) + 1
    } else {
        spawn_pos_at(s) + 20
    }
}

/// End of the suffix text.
pub open spec fn spawn_suffix_end(s: Seq<u8>) -> int {
    find_byte(s, spawn_suffix_at(s), 0)
}

/// Every field the walk reads lies inside the payload and every text it
/// reads is NUL-terminated.
pub open spec fn spawn_fits(s: Seq<u8>) -> bool {
    &&& spawn_name_end(s) < s.len()
    &&& spawn_base(s) + 40 <= s.len()
    &&& spawn_hp_at(s) + 67 <= s.len()
    &&& spawn_last_end(s) < s.len()
    &&& spawn_pos_at(s) + 20 <= s.len()
    &&& spawn_has_title(s) ==> spawn_title_end(s) < s.len()
    &&& spawn_has_suffix(s) ==> spawn_suffix_end(s) < s.len()
}

/// The spawn decodes: the walk fits and the name is not empty.
pub open spec fn spawn_decodes(s: Seq<u8>) -> bool {
    spawn_fits(s) && spawn_name_end(s) > 0
}

/// The error a spawn payload that does not decode is refused with: `Short`
/// for an empty name, else `BadLength`.
pub open spec fn spawn_error(s: Seq<u8>) -> DecodeError {
    if spawn_name_end(s) == 0 && s.len() > 0 {
        DecodeError::Short(s.len() as usize)
    } else {
        DecodeError::BadLength(s.len() as usize)
    }
}

/// The decoded spawn carries exactly the fields at the walked offsets.
pub open spec fn spawn_matches(s: Seq<u8>, z: ZoneSpawn) -> bool {
    let a = spawn_base(s);
    let c = spawn_hp_at(s);
    let g = spawn_pos_at(s);
    &&& z.name@ == latin1_chars(s.take(spawn_name_end(s)))
    &&& z.id == u32_le(s, a) as u16
    &&& z.level == s[a + 4]
    &&& z.npc == s[a + 21]
    &&& z.body_type == (if spawn_char_props(s) > 0 { u32_le(s, a + 40) } else { 0 })
    &&& z.cur_hp == s[c]
    &&& z.max_hp == 100
    &&& z.race == u32_le(s, c + 38)
    &&& z.holding == s[c + 42]
    &&& z.deity == u32_le(s, c + 43)
    &&& z.guild_id == u32_le(s, c + 47)
    &&& z.guild_server_id == u32_le(s, c + 51)
    &&& z.class_ == u32_le(s, c + 55)
    &&& z.class_mask == u32_le(s, c + 59)
    &&& z.state == s[c + 64]
    &&& z.light == s[c + 65]
    &&& z.last_name@ == latin1_chars(s.subrange(c + 67, spawn_last_end(s)))
    &&& z.pet_owner_id == u32_le(s, spawn_last_end(s) + 3)
    &&& z.y == pos19(u32_le(s, g) / 1024)
    &&& z.x == pos19(u32_le(s, g + 8) / 1024)
    &&& z.z == pos19(u32_le(s, g + 16))
    &&& z.heading == 0
    &&& z.title@ == (if spawn_has_title(s) {
        latin1_chars(s.subrange(g + 20, spawn_title_end(s)))
    } else {
        Seq::empty()
    })
    &&& z.suffix@ == (if spawn_has_suffix(s) {
        latin1_chars(s.subrange(spawn_suffix_at(s), spawn_suffix_end(s)))
    } else {
        Seq::empty()
    })
}

/// Sequential reader; an overrun ends the walk with `BadLength`.
struct Walk<'a> {
    b: &'a [u8],
    p: usize,
}

impl<'a> Walk<'a> {
    fn need(&self, n: usize) -> (r: Result<(), DecodeError>)
        requires
            self.p <= self.b@.len(),
        ensures
            r is Ok <==> self.p + n <= self.b@.len(),
            r is Err ==> r == Err::<(), DecodeError>(DecodeError::BadLength(self.b@.len() as usize)),
    {
        if n > self.b.len() - self.p {
            Err(DecodeError::BadLength(self.b.len()))
        } else {
            Ok(())
        }
    }

    fn skip(&mut self, n: usize) -> (r: Result<(), DecodeError>)
        requires
            old(self).p <= old(self).b@.len(),
        ensures
            final(self).b == old(self).b,
            final(self).p <= final(self).b@.len(),
            r is Ok <==> old(self).p + n <= old(self).b@.len(),
            r is Ok ==> final(self).p == old(self).p + n,
            r is Err ==> r == Err::<(), DecodeError>(DecodeError::BadLength(old(self).b@.len() as usize)),
    {
        self.need(n)?;
        let _len = self.b.len();
        self.p = self.p + n;
        Ok(())
    }

    fn u8(&mut self) -> (r: Result<u8, DecodeError>)
        requires
            old(self).p <= old(self).b@.len(),
        ensures
            final(self).b == old(self).b,
            final(self).p <= final(self).b@.len(),
            r is Ok <==> old(self).p + 1 <= old(self).b@.len(),
            r matches Ok(v) ==> v == old(self).b@[old(self).p as int] && final(self).p == old(self).p + 1,
            r is Err ==> r == Err::<u8, DecodeError>(DecodeError::BadLength(old(self).b@.len() as usize)),
    {
        self.need(1)?;
        let _len = self.b.len();
        let v = self.b[self.p];
        self.p = self.p + 1;
        Ok(v)
    }

    fn u32(&mut self) -> (r: Result<u32, DecodeError>)
        requires
            old(self).p <= old(self).b@.len(),
        ensures
            final(self).b == old(self).b,
            final(self).p <= final(self).b@.len(),
            r is Ok <==> old(self).p + 4 <= old(self).b@.len(),
            r matches Ok(v) ==> v == u32_le(old(self).b@, old(self).p as int) && final(self).p
                == old(self).p + 4,
            r is Err ==> r == Err::<u32, DecodeError>(DecodeError::BadLength(old(self).b@.len() as usize)),
    {
        self.need(4)?;
        let _len = self.b.len();
        let v = rd_u32(self.b, self.p);
        self.p = self.p + 4;
        Ok(v)
    }

    /// NUL-terminated latin-1 text; advances past the NUL.
    fn text(&mut self) -> (r: Result<String, DecodeError>)
        requires
            old(self).p <= old(self).b@.len(),
        ensures
            final(self).b == old(self).b,
            final(self).p <= final(self).b@.len(),
            r is Ok <==> find_byte(old(self).b@, old(self).p as int, 0) < old(self).b@.len(),
            r matches Ok(t) ==> t@ == latin1_chars(
                old(self).b@.subrange(
                    old(self).p as int,
                    find_byte(old(self).b@, old(self).p as int, 0),
                ),
            ) && final(self).p == find_byte(old(self).b@, old(self).p as int, 0) + 1,
            r is Err ==> r == Err::<String, DecodeError>(DecodeError::BadLength(old(self).b@.len() as usize)),
    {
        let start = self.p;
        let b = self.b;
        let mut p = start;
        while p < b.len() && b[p] != 0
            invariant
                start <= p <= b@.len(),
                find_byte(b@, p as int, 0) == find_byte(b@, start as int, 0),
            decreases b@.len() - p,
        {
            p = p + 1;
        }
        if p >= b.len() {
            return Err(DecodeError::BadLength(b.len()));
        }
        let t = latin1(&b[start..p]);
        self.p = p + 1;
        Ok(t)
    }
}

/// Decodes `OP_ZoneSpawns` (and the record embedded in a loadout swap).
/// An unterminated name or any overrun of the walk is `BadLength`; an empty
/// name is `Short`.
#[verifier::rlimit(60)]
pub fn parse_spawn(b: &[u8]) -> (r: Result<ZoneSpawn, DecodeError>)
    ensures
        spawn_name_end(b@) == 0 && b@.len() > 0 ==> r == Err::<ZoneSpawn, DecodeError>(
            DecodeError::Short(b@.len() as usize),
        ),
        !(spawn_name_end(b@) == 0 && b@.len() > 0) && !spawn_fits(b@) ==> r == Err::<
            ZoneSpawn,
            DecodeError,
        >(DecodeError::BadLength(b@.len() as usize)),
        spawn_decodes(b@) ==> (r matches Ok(z) && spawn_matches(b@, z)),
        r is Ok <==> spawn_decodes(b@),
        !spawn_decodes(b@) ==> r == Err::<ZoneSpawn, DecodeError>(spawn_error(b@)),
{
    let ghost s = b@;
    proof {
        lemma_find_byte(s, 0, 0);
    }
    let mut w = Walk { b, p: 0 };
    let name = w.text()?;
    if w.p == 1 {
        return Err(DecodeError::Short(b.len()));
    }
    let ghost a = spawn_base(s);
    assert(w.p == a);
    let id = w.u32()? as u16;
    let level = w.u8()?;
    w.skip(16)?;
    let npc = w.u8()?;
    let _misc_data = w.u32()?;
    w.skip(4)?;
    let other_data = w.u8()?;
    w.skip(8)?;
    let char_properties = w.u8()?;
    assert(w.p == a + 40);
    let mut body_type = 0u32;
    let mut i: u8 = 0;
    while i < char_properties
        invariant
            w.b == b,
            s == b@,
            a == spawn_base(s),
            spawn_name_end(s) > 0,
            a + 40 <= s.len(),
            char_properties == s[a + 39],
            i <= char_properties,
            w.p == a + 40 + 4 * i,
            w.p <= s.len(),
            body_type == (if i > 0 { u32_le(s, a + 40) } else { 0 }),
        decreases char_properties - i,
    {
        let n = w.u32()?;
        if i == 0 {
            body_type = n;
        }
        i = i + 1;
    }
    let ghost c = spawn_hp_at(s);
    assert(w.p == c);
    let cur_hp = w.u8()?;
    w.skip(37)?;
    let race = w.u32()?;
    let holding = w.u8()?;
    let deity = w.u32()?;
    let guild_id = w.u32()?;
    let guild_server_id = w.u32()?;
    let class_ = w.u32()?;
    let class_mask = w.u32()?;
    w.skip(1)?;
    let state = w.u8()?;
    let light = w.u8()?;
    w.skip(1)?;
    assert(w.p == c + 67);
    proof {
        lemma_find_byte(s, c + 67, 0);
    }
    let last_name = w.text()?;
    w.skip(2)?;
    let pet_owner_id = w.u32()?;
    w.skip(if npc == 1 { 49 } else { 37 })?;
    if npc == 0 || race <= 12 || race == 128 || race == 130 || race == 330 || race == 522 {
        w.skip(40 + 9 * 5 * 4)?;
    } else {
        w.skip(20 + 2 * 5 * 4)?;
    }
    let ghost g = spawn_pos_at(s);
    assert(w.p == g);
    let p0 = w.u32()?;
    let _p1 = w.u32()?;
    let p2 = w.u32()?;
    let _p3 = w.u32()?;
    let p4 = w.u32()?;
    let y = pos19_word(p0 / 1024);
    let x = pos19_word(p2 / 1024);
    let z = pos19_word(p4);
    let heading = 0u16;
    assert(w.p == g + 20);
    proof {
        lemma_find_byte(s, g + 20, 0);
    }
    let mut title = String::new();
    let mut suffix = String::new();
    if other_data & 0x10 != 0 {
        title = w.text()?;
    }
    assert(w.p == spawn_suffix_at(s));
    proof {
        lemma_find_byte(s, spawn_suffix_at(s), 0);
    }
    if other_data & 0x20 != 0 {
        suffix = w.text()?;
    }
    Ok(
        ZoneSpawn {
            id,
            name,
            last_name,
            title,
            suffix,
            x,
            y,
            z,
            heading,
            level,
            cur_hp,
            max_hp: 100,
            race,
            class_,
            class_mask,
            deity,
            guild_id,
            guild_server_id,
            pet_owner_id,
            npc,
            body_type,
            holding,
            state,
            light,
        },
    )
}

/// Where the position block sits: the pet-owner id is the `u32` two bytes
/// past the last name's NUL; after it come 49 further bytes on an NPC (npc
/// byte 1) or 37 on anything else, then the equipment block, 220 bytes when
/// it has the full 9-slot layout (a PC, or an NPC of race 1-12, 128, 130,
/// 330 or 522) and 60 otherwise. Then five position words follow: y is bits
/// 10.. of word 0, x bits 10.. of word 2 and z word 4, each the low 19 bits
/// read as signed fixed point in eighths.
pub proof fn lemma_spawn_position_after_owner(s: Seq<u8>, z: ZoneSpawn)
    requires
        spawn_decodes(s),
        spawn_matches(s, z),
    ensures
        ({
            let owner = find_byte(s, spawn_hp_at(s) + 67, 0) + 3;
            let full = z.npc == 0 || z.race <= 12 || z.race == 128 || z.race == 130 || z.race
                == 330 || z.race == 522;
            let g = owner + 4 + (if z.npc == 1 { 49int } else { 37int }) + (if full {
                220int
            } else {
                60int
            });
            &&& z.pet_owner_id == u32_le(s, owner)
            &&& z.y == pos19(u32_le(s, g) / 1024)
            &&& z.x == pos19(u32_le(s, g + 8) / 1024)
            &&& z.z == pos19(u32_le(s, g + 16))
        }),
{
}

/// The record's head, in wire order: a NUL-terminated latin-1 name, then
/// (counting from just past its NUL) the `u16` spawn id in the first word,
/// level at byte 4, the npc byte at 21, a property count at 39 and that many
/// `u32` properties from byte 40; right after them the HP percent, race 38
/// bytes on, deity at 43, guild id at 47, class at 55, class mask at 59,
/// and the NUL-terminated last name from byte 67.
pub proof fn lemma_spawn_head_fields(s: Seq<u8>, z: ZoneSpawn)
    requires
        spawn_decodes(s),
        spawn_matches(s, z),
    ensures
        ({
            let n = find_byte(s, 0, 0);
            let a = n + 1;
            let c = a + 40 + 4 * (s[a + 39] as int);
            &&& z.name@ == latin1_chars(s.take(n))
            &&& z.id == u32_le(s, a) as u16
            &&& z.level == s[a + 4]
            &&& z.npc == s[a + 21]
            &&& z.cur_hp == s[c]
            &&& z.race == u32_le(s, c + 38)
            &&& z.deity == u32_le(s, c + 43)
            &&& z.guild_id == u32_le(s, c + 47)
            &&& z.class_ == u32_le(s, c + 55)
            &&& z.class_mask == u32_le(s, c + 59)
            &&& z.last_name@ == latin1_chars(s.subrange(c + 67, find_byte(s, c + 67, 0)))
        }),
{
}

} // verus!
