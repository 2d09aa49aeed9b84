//! Reduce `\x12`-wrapped links to their readable name.
//!
//! An item link is `\x12`, a 197-character hex header, the item name, `\x12`;
//! its leading 6 hex characters are the item id (big-endian). A spell link
//! carries caret-separated arguments (`fmt^id^..^'Name`), the name last.
use vstd::prelude::*;
use crate::text::{chars_of, string_from_chars};

verus! {

/// Hex characters before the name in an item link.
pub const ITEM_LINK_HEX: usize = 197;

/// The value of a hex digit (`0-9A-Fa-f`), or `None`.
pub open spec fn hex_digit(c: u32) -> Option<u32> {
    if 0x30 <= c <= 0x39 {
        Some((c - 0x30) as u32)
    } else if 0x41 <= c <= 0x46 {
        Some((c - 0x41 + 10) as u32)
    } else if 0x61 <= c <= 0x66 {
        Some((c - 0x61 + 10) as u32)
    } else {
        None
    }
}

/// The hex number spelled by all of `d`, or `None` if any is not a digit.
pub open spec fn hex_number(d: Seq<u32>) -> Option<int>
    decreases d.len(),
{
    if d.len() == 0 {
        Some(0)
    } else {
        match (hex_number(d.drop_last()), hex_digit(d.last())) {
            (Some(v), Some(x)) => Some(16 * v + x),
            _ => None,
        }
    }
}

/// Unsigned radix-16 parse of a text: an optional leading `+`, then at least
/// one hex digit and nothing else.
pub open spec fn parse_hex(d: Seq<u32>) -> Option<int> {
    if d.len() > 0 && d[0] == 0x2b {
        if d.len() == 1 {
            None
        } else {
            hex_number(d.drop_first())
        }
    } else if d.len() == 0 {
        None
    } else {
        hex_number(d)
    }
}

/// The item id in a link body: its first 6 units read as hex, 0 when the
/// body is shorter or they do not parse.
pub open spec fn link_id(body: Seq<u32>) -> u32 {
    if body.len() < 6 {
        0
    } else {
        match parse_hex(body.take(6)) {
            Some(v) => v as u32,
            None => 0,
        }
    }
}

/// Bytes widened to code units.
pub open spec fn byte_units(b: Seq<u8>) -> Seq<u32> {
    b.map_values(|c: u8| c as u32)
}

/// Characters as code points.
pub open spec fn char_units(s: Seq<char>) -> Seq<u32> {
    s.map_values(|c: char| c as u32)
}

/// `16^n`.
pub open spec fn pow16(n: nat) -> int
    decreases n,
{
    if n == 0 {
        1
    } else {
        16 * pow16((n - 1) as nat)
    }
}

proof fn lemma_pow16_pos(a: nat)
    ensures
        pow16(a) >= 1,
    decreases a,
{
    if a > 0 {
        lemma_pow16_pos((a - 1) as nat);
    }
}

proof fn lemma_pow16_mono(a: nat, b: nat)
    requires
        a <= b,
    ensures
        1 <= pow16(a) <= pow16(b),
    decreases b - a,
{
    lemma_pow16_pos(a);
    if a < b {
        lemma_pow16_mono(a, (b - 1) as nat);
        lemma_pow16_pos((b - 1) as nat);
    }
}

/// Parses `d` (at most 6 units) as unsigned hex with an optional `+`.
fn parse_hex_units(d: &Vec<u32>) -> (r: Option<u32>)
    requires
        d@.len() <= 6,
    ensures
        match parse_hex(d@) {
            Some(v) => r == Some(v as u32) && v < 0x100_0000,
            None => r is None,
        },
{
    let mut start: usize = 0;
    if d.len() > 0 && d[0] == 0x2b {
        start = 1;
    }
    if d.len() == start {
        return None;
    }
    let ghost digits = d@.skip(start as int);
    let mut v: u32 = 0;
    let mut i: usize = start;
    while i < d.len()
        invariant
            start <= i <= d@.len() <= 6,
            start < d@.len(),
            start == (if d@.len() > 0 && d@[0] == 0x2b { 1usize } else { 0usize }),
            digits == d@.skip(start as int),
            hex_number(d@.subrange(start as int, i as int)) == Some(v as int),
            v < pow16((i - start) as nat),
        decreases d@.len() - i,
    {
        let c = d[i];
        let x: u32 = if 0x30 <= c && c <= 0x39 {
            c - 0x30
        } else if 0x41 <= c && c <= 0x46 {
            c - 0x41 + 10
        } else if 0x61 <= c && c <= 0x66 {
            c - 0x61 + 10
        } else {
            proof {
                lemma_hex_none_extends(d@, start as int, i as int);
                assert(d@.skip(0) =~= d@);
                assert(d@.skip(1) =~= d@.drop_first());
            }
            return None;
        };
        proof {
            assert(d@.subrange(start as int, i + 1).drop_last() =~= d@.subrange(start as int, i as int));
            lemma_pow16_mono((i - start) as nat, 5);
            assert(pow16(5) == 0x10_0000) by {
                reveal_with_fuel(pow16, 6);
            }
        }
        v = v * 16 + x;
        i = i + 1;
    }
    proof {
        assert(d@.subrange(start as int, d@.len() as int) =~= d@.skip(start as int));
        assert(d@.skip(0) =~= d@);
        assert(d@.skip(1) =~= d@.drop_first());
        lemma_pow16_mono((d@.len() - start) as nat, 6);
        assert(pow16(6) == 0x100_0000) by {
            reveal_with_fuel(pow16, 7);
        }
    }
    Some(v)
}

/// A non-digit anywhere makes the whole tail unparseable.
proof fn lemma_hex_none_extends(d: Seq<u32>, start: int, i: int)
    requires
        0 <= start <= i < d.len(),
        hex_digit(d[i]) is None,
    ensures
        hex_number(d.skip(start)) is None,
    decreases d.len() - i,
{
    let t = d.skip(start);
    lemma_hex_none_prefix(t, i - start);
}

proof fn lemma_hex_none_prefix(t: Seq<u32>, k: int)
    requires
        0 <= k < t.len(),
        hex_digit(t[k]) is None,
    ensures
        hex_number(t) is None,
    decreases t.len(),
{
    if k < t.len() - 1 {
        lemma_hex_none_prefix(t.drop_last(), k);
    }
}

/// The item id of an item-link body: its first 6 bytes read as big-endian
/// hex; 0 for a shorter body or one whose head is not hex (a spell link).
pub fn item_id_from_link(body: &[u8]) -> (r: u32)
    ensures
        r == link_id(byte_units(body@)),
{
    if body.len() < 6 {
        return 0;
    }
    let mut d: Vec<u32> = Vec::new();
    let mut i: usize = 0;
    while i < 6
        invariant
            6 <= body@.len(),
            i <= 6,
            d@ == byte_units(body@).take(i as int),
        decreases 6 - i,
    {
        d.push(body[i] as u32);
        i = i + 1;
        assert(d@ =~= byte_units(body@).take(i as int));
    }
    match parse_hex_units(&d) {
        Some(v) => v,
        None => 0,
    }
}

/// Index of the first `c` at or after `from`, or `s.len()`.
pub open spec fn find_char(s: Seq<char>, from: int, c: char) -> int
    decreases s.len() - from,
{
    if from < 0 || from >= s.len() {
        s.len() as int
    } else if s[from] == c {
        from
    } else {
        find_char(s, from + 1, c)
    }
}

/// Index of the last `c` in `s`, or -1.
pub open spec fn last_char(s: Seq<char>, c: char) -> int
    decreases s.len(),
{
    if s.len() == 0 {
        -1
    } else if s.last() == c {
        s.len() - 1
    } else {
        last_char(s.drop_last(), c)
    }
}

/// `s` without its leading `'` characters.
pub open spec fn trim_quotes(s: Seq<char>) -> Seq<char>
    decreases s.len(),
{
    if s.len() > 0 && s[0] == '\'' {
        trim_quotes(s.drop_first())
    } else {
        s
    }
}

/// Bytes in the UTF-8 encoding of `c`.
pub open spec fn utf8_width(c: char) -> int {
    if (c as u32) < 0x80 {
        1
    } else if (c as u32) < 0x800 {
        2
    } else if (c as u32) < 0x10000 {
        3
    } else {
        4
    }
}

/// The text from UTF-8 byte offset `n` on; `None` when `n` is past the end or
/// inside a character.
pub open spec fn from_byte(s: Seq<char>, n: int) -> Option<Seq<char>>
    decreases s.len(),
{
    if n == 0 {
        Some(s)
    } else if s.len() == 0 || n < utf8_width(s[0]) {
        None
    } else {
        from_byte(s.drop_first(), n - utf8_width(s[0]))
    }
}

/// The readable name of a link body: after the last `^` with leading quotes
/// trimmed for a spell link; past the 197-byte hex header for an item link
/// (empty when the body is shorter).
pub open spec fn link_name(link: Seq<char>) -> Seq<char> {
    let i = last_char(link, '^');
    if i >= 0 {
        trim_quotes(link.skip(i + 1))
    } else {
        match from_byte(link, 197) {
            Some(t) => t,
            None => Seq::empty(),
        }
    }
}

/// `s` with every complete `\x12 … \x12` span replaced by its link name; an
/// unterminated span is kept as it is.
pub open spec fn clean(s: Seq<char>) -> Seq<char>
    decreases s.len(),
{
    let open = find_char(s, 0, '\u{12}');
    if open >= s.len() {
        s
    } else {
        proof {
            lemma_find_char(s, 0, '\u{12}');
            lemma_find_char(s, open + 1, '\u{12}');
        }
        let close = find_char(s, open + 1, '\u{12}');
        if close >= s.len() {
            s.take(open) + s.skip(open + 1)
        } else {
            s.take(open) + link_name(s.subrange(open + 1, close)) + clean(s.skip(close + 1))
        }
    }
}

/// What `find_char` returns: the first match at or after `from`, or the end.
pub proof fn lemma_find_char(s: Seq<char>, from: int, c: char)
    requires
        0 <= from <= s.len(),
    ensures
        from <= find_char(s, from, c) <= s.len(),
        forall|k: int| from <= k < find_char(s, from, c) ==> s[k] != c,
        find_char(s, from, c) < s.len() ==> s[find_char(s, from, c)] == c,
    decreases s.len() - from,
{
    if from < s.len() && s[from] != c {
        lemma_find_char(s, from + 1, c);
    }
}

/// Index of the first `c` at or after `from` in `s`, or `s.len()`.
fn scan_char(s: &Vec<char>, from: usize, c: char) -> (r: usize)
    requires
        from <= s@.len(),
    ensures
        r == find_char(s@, from as int, c),
        from <= r <= s@.len(),
{
    let mut i = from;
    while i < s.len() && s[i] != c
        invariant
            from <= i <= s@.len(),
            find_char(s@, i as int, c) == find_char(s@, from as int, c),
        decreases s@.len() - i,
    {
        i = i + 1;
    }
    i
}

/// `s[lo..hi]` appended to `out`.
fn push_range(out: &mut Vec<char>, s: &Vec<char>, lo: usize, hi: usize)
    requires
        lo <= hi <= s@.len(),
    ensures
        final(out)@ == old(out)@ + s@.subrange(lo as int, hi as int),
{
    let mut i = lo;
    while i < hi
        invariant
            lo <= i <= hi <= s@.len(),
            out@ == old(out)@ + s@.subrange(lo as int, i as int),
        decreases hi - i,
    {
        out.push(s[i]);
        i = i + 1;
        assert(out@ =~= old(out)@ + s@.subrange(lo as int, i as int));
    }
}

/// Bytes in the UTF-8 encoding of `c`.
fn utf8_width_of(c: char) -> (w: usize)
    ensures
        w == utf8_width(c),
{
    let v = c as u32;
    if v < 0x80 {
        1
    } else if v < 0x800 {
        2
    } else if v < 0x10000 {
        3
    } else {
        4
    }
}

/// The link name of `s[lo..hi]`, appended to `out`.
fn push_link_name(out: &mut Vec<char>, s: &Vec<char>, lo: usize, hi: usize)
    requires
        lo <= hi <= s@.len(),
    ensures
        final(out)@ == old(out)@ + link_name(s@.subrange(lo as int, hi as int)),
{
    let ghost link = s@.subrange(lo as int, hi as int);
    // The last caret, if any.
    let mut j = hi;
    while j > lo && s[j - 1] != '^'
        invariant
            lo <= j <= hi <= s@.len(),
            link == s@.subrange(lo as int, hi as int),
            last_char(link, '^') == last_char(s@.subrange(lo as int, j as int), '^'),
        decreases j - lo,
    {
        assert(s@.subrange(lo as int, j as int).drop_last() =~= s@.subrange(lo as int, j - 1));
        j = j - 1;
    }
    if j > lo {
        assert(last_char(s@.subrange(lo as int, j as int), '^') == j - 1 - lo);
        let mut k = j;
        while k < hi && s[k] == '\''
            invariant
                j <= k <= hi <= s@.len(),
                trim_quotes(s@.subrange(j as int, hi as int)) == trim_quotes(
                    s@.subrange(k as int, hi as int),
                ),
            decreases hi - k,
        {
            assert(s@.subrange(k as int, hi as int).drop_first() =~= s@.subrange(k + 1, hi as int));
            k = k + 1;
        }
        assert(link.skip(j - lo) =~= s@.subrange(j as int, hi as int));
        push_range(out, s, k, hi);
    } else {
        assert(s@.subrange(lo as int, j as int) =~= Seq::<char>::empty());
        // Skip 197 bytes' worth of characters.
        let mut k = lo;
        let mut n: usize = ITEM_LINK_HEX;
        while n > 0 && k < hi && utf8_width_of(s[k]) <= n
            invariant
                lo <= k <= hi <= s@.len(),
                n <= 197,
                from_byte(link, 197) == from_byte(s@.subrange(k as int, hi as int), n as int),
            decreases hi - k,
        {
            assert(s@.subrange(k as int, hi as int).drop_first() =~= s@.subrange(k + 1, hi as int));
            n = n - utf8_width_of(s[k]);
            k = k + 1;
        }
        if n == 0 {
            push_range(out, s, k, hi);
        } else {
            assert(out@ =~= out@ + Seq::<char>::empty());
        }
    }
}

/// Replaces each `\x12 … \x12` span with its readable name: the trailing
/// name of a spell link, or what follows the hex header of an item link. An
/// unterminated span is kept without its opening delimiter.
pub fn clean_links(s: &str) -> (r: String)
    ensures
        r@ == clean(s@),
{
    let cs = chars_of(s);
    let mut out: Vec<char> = Vec::new();
    let mut rest: usize = 0;
    assert(cs@.skip(0) =~= cs@);
    while rest < cs.len()
        invariant
            rest <= cs@.len(),
            cs@ == s@,
            out@ + clean(cs@.skip(rest as int)) == clean(cs@),
        decreases cs@.len() - rest,
    {
        let ghost t = cs@.skip(rest as int);
        let ghost out0 = out@;
        let open = scan_char(&cs, rest, '\u{12}');
        proof {
            lemma_find_shift(cs@, rest as int, 0);
        }
        if open == cs.len() {
            push_range(&mut out, &cs, rest, cs.len());
            assert(cs@.subrange(rest as int, cs@.len() as int) =~= t);
            rest = cs.len();
            assert(cs@.skip(rest as int) =~= Seq::<char>::empty());
            assert(out@ + clean(cs@.skip(rest as int)) =~= out@);
        } else {
            push_range(&mut out, &cs, rest, open);
            let close = scan_char(&cs, open + 1, '\u{12}');
            proof {
                lemma_find_shift(cs@, rest as int, open + 1 - rest);
                assert(t.take(open - rest) =~= cs@.subrange(rest as int, open as int));
            }
            if close == cs.len() {
                push_range(&mut out, &cs, open + 1, cs.len());
                proof {
                    assert(t.skip(open - rest + 1) =~= cs@.subrange(open + 1, cs@.len() as int));
                    assert(out@ =~= out0 + clean(t));
                }
                rest = cs.len();
                assert(cs@.skip(rest as int) =~= Seq::<char>::empty());
                assert(out@ + clean(cs@.skip(rest as int)) =~= out@);
            } else {
                push_link_name(&mut out, &cs, open + 1, close);
                proof {
                    assert(t.subrange(open - rest + 1, close - rest) =~= cs@.subrange(
                        open + 1,
                        close as int,
                    ));
                    assert(t.skip(close - rest + 1) =~= cs@.skip(close + 1));
                    assert(out@ + clean(cs@.skip(close + 1)) =~= out0 + clean(t));
                }
                rest = close + 1;
            }
        }
    }
    proof {
        assert(cs@.skip(rest as int) =~= Seq::<char>::empty());
        assert(out@ + clean(cs@.skip(rest as int)) =~= out@);
    }
    string_from_chars(out.as_slice())
}

/// Searching a suffix finds the same character, shifted.
proof fn lemma_find_shift(s: Seq<char>, rest: int, from: int)
    requires
        0 <= rest <= s.len(),
        0 <= from <= s.len() - rest,
    ensures
        find_char(s.skip(rest), from, '\u{12}') == find_char(s, rest + from, '\u{12}') - rest,
    decreases s.len() - rest - from,
{
    if from < s.len() - rest && s[rest + from] != '\u{12}' {
        lemma_find_shift(s, rest, from + 1);
    }
}

/// The first complete link span whose body carries no `^` (an item link, not
/// a spell link): its item id and readable name.
pub open spec fn first_item(s: Seq<char>) -> Option<(u32, Seq<char>)>
    decreases s.len(),
{
    let open = find_char(s, 0, '\u{12}');
    if open >= s.len() {
        None
    } else {
        proof {
            lemma_find_char(s, 0, '\u{12}');
            lemma_find_char(s, open + 1, '\u{12}');
        }
        let close = find_char(s, open + 1, '\u{12}');
        if close >= s.len() {
            None
        } else {
            let body = s.subrange(open + 1, close);
            if last_char(body, '^') < 0 {
                Some((link_id(char_units(body)), link_name(body)))
            } else {
                first_item(s.skip(close + 1))
            }
        }
    }
}

/// Whether `s[lo..hi]` holds a `^`.
fn has_caret(s: &Vec<char>, lo: usize, hi: usize) -> (r: bool)
    requires
        lo <= hi <= s@.len(),
    ensures
        r == (last_char(s@.subrange(lo as int, hi as int), '^') >= 0),
{
    let mut j = hi;
    while j > lo && s[j - 1] != '^'
        invariant
            lo <= j <= hi <= s@.len(),
            last_char(s@.subrange(lo as int, hi as int), '^') == last_char(
                s@.subrange(lo as int, j as int),
                '^',
            ),
        decreases j - lo,
    {
        assert(s@.subrange(lo as int, j as int).drop_last() =~= s@.subrange(lo as int, j - 1));
        j = j - 1;
    }
    if j > lo {
        true
    } else {
        assert(s@.subrange(lo as int, j as int) =~= Seq::<char>::empty());
        false
    }
}

/// The item id of the link body `s[lo..hi]`, read from its characters.
fn link_id_of(s: &Vec<char>, lo: usize, hi: usize) -> (r: u32)
    requires
        lo <= hi <= s@.len(),
    ensures
        r == link_id(char_units(s@.subrange(lo as int, hi as int))),
{
    let ghost body = char_units(s@.subrange(lo as int, hi as int));
    if hi - lo < 6 {
        return 0;
    }
    let mut d: Vec<u32> = Vec::new();
    let mut i: usize = 0;
    while i < 6
        invariant
            lo + 6 <= hi <= s@.len(),
            body == char_units(s@.subrange(lo as int, hi as int)),
            i <= 6,
            d@ == body.take(i as int),
        decreases 6 - i,
    {
        d.push(s[lo + i] as u32);
        i = i + 1;
        assert(d@ =~= body.take(i as int));
    }
    match parse_hex_units(&d) {
        Some(v) => v,
        None => 0,
    }
}

/// The first item link of a text (a complete span with no `^`): its item id
/// and readable name; `None` when the text carries none.
pub fn first_item_link(s: &str) -> (r: Option<(u32, String)>)
    ensures
        match first_item(s@) {
            Some((id, name)) => r matches Some((rid, rname)) && rid == id && rname@ == name,
            None => r is None,
        },
{
    let cs = chars_of(s);
    let mut rest: usize = 0;
    assert(cs@.skip(0) =~= cs@);
    while rest < cs.len()
        invariant
            rest <= cs@.len(),
            cs@ == s@,
            first_item(cs@.skip(rest as int)) == first_item(cs@),
        decreases cs@.len() - rest,
    {
        let ghost t = cs@.skip(rest as int);
        let open = scan_char(&cs, rest, '\u{12}');
        proof {
            lemma_find_shift(cs@, rest as int, 0);
        }
        if open == cs.len() {
            return None;
        }
        let close = scan_char(&cs, open + 1, '\u{12}');
        proof {
            lemma_find_shift(cs@, rest as int, open + 1 - rest);
        }
        if close == cs.len() {
            return None;
        }
        proof {
            assert(t.subrange(open - rest + 1, close - rest) =~= cs@.subrange(open + 1, close as int));
            assert(t.skip(close - rest + 1) =~= cs@.skip(close + 1));
        }
        if !has_caret(&cs, open + 1, close) {
            let id = link_id_of(&cs, open + 1, close);
            let mut name: Vec<char> = Vec::new();
            push_link_name(&mut name, &cs, open + 1, close);
            assert(name@ =~= link_name(cs@.subrange(open + 1, close as int)));
            return Some((id, string_from_chars(name.as_slice())));
        }
        rest = close + 1;
    }
    assert(cs@.skip(rest as int) =~= Seq::<char>::empty());
    None
}

/// `s` holds no link delimiter.
pub open spec fn no_delims(s: Seq<char>) -> bool {
    forall|k: int| 0 <= k < s.len() ==> s[k] != '\u{12}'
}

proof fn lemma_trim_quotes_suffix(s: Seq<char>)
    ensures
        exists|k: int| 0 <= k <= s.len() && trim_quotes(s) == s.skip(k),
    decreases s.len(),
{
    if s.len() > 0 && s[0] == '\'' {
        lemma_trim_quotes_suffix(s.drop_first());
        let k = choose|k: int| 0 <= k <= s.drop_first().len() && trim_quotes(s.drop_first())
            == s.drop_first().skip(k);
        assert(s.drop_first().skip(k) =~= s.skip(k + 1));
    } else {
        assert(s.skip(0) =~= s);
    }
}

proof fn lemma_from_byte_suffix(s: Seq<char>, n: int)
    ensures
        from_byte(s, n) matches Some(t) ==> exists|k: int| 0 <= k <= s.len() && t == s.skip(k),
    decreases s.len(),
{
    if n == 0 {
        assert(s.skip(0) =~= s);
    } else if s.len() == 0 || n < utf8_width(s[0]) {
    } else {
        lemma_from_byte_suffix(s.drop_first(), n - utf8_width(s[0]));
        if let Some(t) = from_byte(s, n) {
            let k = choose|k: int| 0 <= k <= s.drop_first().len() && t == s.drop_first().skip(k);
            assert(s.drop_first().skip(k) =~= s.skip(k + 1));
        }
    }
}

/// A link name is drawn from its link: a delimiter-free body gives a
/// delimiter-free name.
proof fn lemma_link_name_no_delims(link: Seq<char>)
    requires
        no_delims(link),
    ensures
        no_delims(link_name(link)),
{
    let i = last_char(link, '^');
    lemma_last_char_range(link, '^');
    if i >= 0 {
        lemma_trim_quotes_suffix(link.skip(i + 1));
    } else {
        lemma_from_byte_suffix(link, 197);
    }
}

proof fn lemma_last_char_range(s: Seq<char>, c: char)
    ensures
        -1 <= last_char(s, c) < s.len(),
    decreases s.len(),
{
    if s.len() > 0 && s.last() != c {
        lemma_last_char_range(s.drop_last(), c);
    }
}

/// Cleaning removes every link delimiter: whatever the input, the cleaned
/// text holds no `\x12`.
pub proof fn lemma_clean_has_no_delims(s: Seq<char>)
    ensures
        no_delims(clean(s)),
    decreases s.len(),
{
    let open = find_char(s, 0, '\u{12}');
    lemma_find_char(s, 0, '\u{12}');
    if open < s.len() {
        lemma_find_char(s, open + 1, '\u{12}');
        let close = find_char(s, open + 1, '\u{12}');
        if close >= s.len() {
            assert(no_delims(s.take(open) + s.skip(open + 1)));
        } else {
            let body = s.subrange(open + 1, close);
            lemma_link_name_no_delims(body);
            lemma_clean_has_no_delims(s.skip(close + 1));
            let a = s.take(open);
            let l = link_name(body);
            let r = clean(s.skip(close + 1));
            assert forall|k: int| 0 <= k < (a + l + r).len() implies (a + l + r)[k] != '\u{12}' by {
                if k < a.len() {
                } else if k < a.len() + l.len() {
                    assert((a + l + r)[k] == l[k - a.len()]);
                } else {
                    assert((a + l + r)[k] == r[k - a.len() - l.len()]);
                }
            }
        }
    }
}

/// Text without a link delimiter passes through cleaning unchanged.
pub proof fn lemma_clean_plain(s: Seq<char>)
    requires
        no_delims(s),
    ensures
        clean(s) == s,
{
    lemma_find_char(s, 0, '\u{12}');
}

/// `find_char` lands on the first match: `k` when no `c` lies in
/// `from..k` and `k` holds one (or is the end).
proof fn lemma_find_char_at(s: Seq<char>, from: int, k: int, c: char)
    requires
        0 <= from <= k <= s.len(),
        forall|j: int| from <= j < k ==> s[j] != c,
        k < s.len() ==> s[k] == c,
    ensures
        find_char(s, from, c) == k,
    decreases k - from,
{
    if from < k {
        lemma_find_char_at(s, from + 1, k, c);
    }
}

/// A complete link span is replaced by its link name: the text before the
/// first span is kept, the span becomes `link_name(body)`, and cleaning goes
/// on after the closing delimiter.
pub proof fn lemma_clean_span(pre: Seq<char>, body: Seq<char>, post: Seq<char>)
    requires
        no_delims(pre),
        no_delims(body),
    ensures
        clean(pre + seq!['\u{12}'] + body + seq!['\u{12}'] + post) == pre + link_name(body)
            + clean(post),
{
    let s = pre + seq!['\u{12}'] + body + seq!['\u{12}'] + post;
    let o = pre.len() as int;
    let c = o + 1 + body.len();
    assert forall|j: int| 0 <= j < o implies s[j] != '\u{12}' by {
        assert(s[j] == pre[j]);
    }
    lemma_find_char_at(s, 0, o, '\u{12}');
    assert forall|j: int| o + 1 <= j < c implies s[j] != '\u{12}' by {
        assert(s[j] == body[j - o - 1]);
    }
    lemma_find_char_at(s, o + 1, c, '\u{12}');
    assert(s.take(o) =~= pre);
    assert(s.subrange(o + 1, c) =~= body);
    assert(s.skip(c + 1) =~= post);
}

/// An opening delimiter that is never closed is dropped and the text after
/// it kept as it is.
pub proof fn lemma_clean_unterminated(pre: Seq<char>, rest: Seq<char>)
    requires
        no_delims(pre),
        no_delims(rest),
    ensures
        clean(pre + seq!['\u{12}'] + rest) == pre + rest,
{
    let s = pre + seq!['\u{12}'] + rest;
    let o = pre.len() as int;
    assert forall|j: int| 0 <= j < o implies s[j] != '\u{12}' by {
        assert(s[j] == pre[j]);
    }
    lemma_find_char_at(s, 0, o, '\u{12}');
    assert forall|j: int| o + 1 <= j < s.len() implies s[j] != '\u{12}' by {
        assert(s[j] == rest[j - o - 1]);
    }
    lemma_find_char_at(s, o + 1, s.len() as int, '\u{12}');
    assert(s.take(o) + s.skip(o + 1) =~= pre + rest);
}

/// Cleaning is idempotent: cleaned text cleans to itself.
pub proof fn lemma_clean_idempotent(s: Seq<char>)
    ensures
        clean(clean(s)) == clean(s),
{
    lemma_clean_has_no_delims(s);
    lemma_clean_plain(clean(s));
}

/// A link body whose first six units hold a `^` (a spell link) has no item
/// id.
pub proof fn lemma_spell_link_has_no_id(body: Seq<u32>, k: int)
    requires
        0 <= k < 6,
        k < body.len(),
        body[k] == 0x5e,
    ensures
        link_id(body) == 0,
{
    if body.len() >= 6 {
        let d = body.take(6);
        assert(d[k] == 0x5e);
        if d[0] == 0x2b {
            if k == 0 {
            } else {
                lemma_hex_none_prefix(d.drop_first(), k - 1);
            }
        } else {
            lemma_hex_none_prefix(d, k);
        }
    }
}

} // verus!
