//! Building `String`s from wire bytes: latin-1 (each byte one code point) is
//! verified here; UTF-8 lossy decoding is the standard library's.
use vstd::prelude::*;
use crate::wire::{find_byte, scan_byte};

verus! {

/// What `String::from_utf8_lossy` makes of `bytes`.
pub uninterp spec fn utf8_lossy(bytes: Seq<u8>) -> Seq<char>;

/// Each byte read as the code point of the same value (latin-1).
pub open spec fn latin1_chars(b: Seq<u8>) -> Seq<char> {
    b.map_values(|c: u8| c as char)
}

/// Every byte is 7-bit ASCII.
pub open spec fn all_ascii(b: Seq<u8>) -> bool {
    forall|i: int| 0 <= i < b.len() ==> b[i] < 0x80
}

/// The bytes of a NUL-terminated field: everything before its first NUL.
pub open spec fn cstr_bytes(b: Seq<u8>) -> Seq<u8> {
    b.take(find_byte(b, 0, 0))
}

/// No byte is NUL.
pub open spec fn no_nul_bytes(b: Seq<u8>) -> bool {
    forall|i: int| 0 <= i < b.len() ==> b[i] != 0
}

/// No character is U+0000.
pub open spec fn no_nul_chars(s: Seq<char>) -> bool {
    forall|i: int| 0 <= i < s.len() ==> s[i] != '\0'
}

/// `String::from_utf8_lossy(bytes).into_owned()`. The result is a function of
/// the bytes alone; for ASCII input (always valid UTF-8) it is the bytes read
/// one character each. Every byte is decoded into, or replaced as part of,
/// some character (U+FFFD for an invalid sequence), so bytes give a non-empty
/// string; U+0000 only comes from a NUL byte, so NUL-free bytes give a
/// NUL-free string. Which characters other bytes yield is left unstated.
#[verifier::external_body]
pub(crate) fn lossy_string(bytes: &[u8]) -> (s: String)
    ensures
        s@ == utf8_lossy(bytes@),
        all_ascii(bytes@) ==> s@ == latin1_chars(bytes@),
        bytes@.len() > 0 ==> s@.len() > 0,
        no_nul_bytes(bytes@) ==> no_nul_chars(s@),
{
    String::from_utf8_lossy(bytes).into_owned()
}

/// `String::push`: appends one character.
#[verifier::external_body]
fn push_char(s: &mut String, c: char)
    ensures
        final(s)@ == old(s)@.push(c),
{
    s.push(c);
}

/// The string of these characters, in order.
pub fn string_from_chars(chars: &[char]) -> (s: String)
    ensures
        s@ == chars@,
{
    let mut s = String::new();
    let mut i: usize = 0;
    while i < chars.len()
        invariant
            i <= chars@.len(),
            s@ == chars@.take(i as int),
        decreases chars@.len() - i,
    {
        push_char(&mut s, chars[i]);
        i = i + 1;
        assert(s@ =~= chars@.take(i as int));
    }
    s
}

/// The characters of `s`, in order.
pub fn chars_of(s: &str) -> (v: Vec<char>)
    ensures
        v@ == s@,
{
    broadcast use vstd::string::axiom_spec_iter;

    let mut v: Vec<char> = Vec::new();
    for c in it: s.chars()
        invariant
            it.seq() == s@,
            v@ == s@.take(it.index() as int),
    {
        v.push(c);
        assert(s@.take(it.index() + 1) =~= v@);
    }
    v
}

/// `a == b` on string slices: equal exactly when their characters are.
pub(crate) fn str_eq(a: &str, b: &str) -> (r: bool)
    ensures
        r == (a@ == b@),
{
    let x = chars_of(a);
    let y = chars_of(b);
    if x.len() != y.len() {
        return false;
    }
    let mut i: usize = 0;
    while i < x.len()
        invariant
            x@ == a@,
            y@ == b@,
            x@.len() == y@.len(),
            i <= x@.len(),
            forall|k: int| 0 <= k < i ==> x@[k] == y@[k],
        decreases x@.len() - i,
    {
        if x[i] != y[i] {
            return false;
        }
        i = i + 1;
    }
    assert(a@ =~= b@);
    true
}

/// Latin-1 → `String`: each byte becomes the code point of the same value.
pub fn latin1(b: &[u8]) -> (s: String)
    ensures
        s@ == latin1_chars(b@),
{
    let mut cs: Vec<char> = Vec::new();
    let mut i: usize = 0;
    while i < b.len()
        invariant
            i <= b@.len(),
            cs@ == latin1_chars(b@.take(i as int)),
        decreases b@.len() - i,
    {
        let c: char = b[i] as char;
        cs.push(c);
        i = i + 1;
        assert(latin1_chars(b@.take(i as int)) =~= latin1_chars(b@.take(i - 1)).push(c));
    }
    assert(b@.take(b@.len() as int) =~= b@);
    string_from_chars(cs.as_slice())
}

/// NUL-terminated field → `String` (UTF-8, lossy): the bytes before the
/// first NUL, or the whole field when it has none.
pub fn cstr_field(b: &[u8]) -> (s: String)
    ensures
        s@ == utf8_lossy(cstr_bytes(b@)),
{
    let end = scan_byte(b, 0, 0);
    lossy_string(&b[0..end])
}

/// NUL-terminated field → `String` (latin-1).
pub fn cstr_latin1(b: &[u8]) -> (s: String)
    ensures
        s@ == latin1_chars(cstr_bytes(b@)),
{
    let end = scan_byte(b, 0, 0);
    latin1(&b[0..end])
}

} // verus!
