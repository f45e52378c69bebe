//! Text encodings used when names cross the host boundary.
//!
//! The host takes wide strings as NUL-terminated UTF-16 and narrow strings as
//! NUL-terminated bytes, and hands wide strings back as UTF-16 code units.

use vstd::prelude::*;
use vstd::string::*;
use vstd::utf8::*;

verus! {

broadcast use vstd::string::group_string_axioms;

/// The UTF-16 code units of one character: the character's own value when it
/// lies in the basic plane, otherwise a high and a low surrogate that split
/// the value's offset above `0x10000` into its upper and lower ten bits.
pub open spec fn utf16_units(c: char) -> Seq<u16> {
    let v = c as u32 as int;
    if v < 0x10000 {
        seq![v as u16]
    } else {
        seq![(0xD800 + (v - 0x10000) / 0x400) as u16, (0xDC00 + (v - 0x10000) % 0x400) as u16]
    }
}

/// The UTF-16 encoding of a sequence of characters: the units of each
/// character, in order.
pub open spec fn utf16_of(chars: Seq<char>) -> Seq<u16>
    decreases chars.len(),
{
    if chars.len() == 0 {
        Seq::empty()
    } else {
        utf16_of(chars.drop_last()) + utf16_units(chars.last())
    }
}

/// A wide string as the host reads it: the UTF-16 encoding followed by one
/// terminating zero unit.
pub open spec fn wstr_of(chars: Seq<char>) -> Seq<u16> {
    utf16_of(chars).push(0u16)
}

/// A narrow string as the host reads it: the UTF-8 bytes followed by one
/// terminating zero byte.
pub open spec fn cstr_of(bytes: Seq<u8>) -> Seq<u8> {
    bytes.push(0u8)
}

/// Every character takes one or two units.
pub proof fn lemma_utf16_units_len(c: char)
    ensures
        1 <= utf16_units(c).len() <= 2,
        utf16_units(c).len() == 1 <==> (c as u32) < 0x10000,
{
}

/// The encoding of a text is at least as long as the text and at most twice
/// as long.
pub proof fn lemma_utf16_len(chars: Seq<char>)
    ensures
        chars.len() <= utf16_of(chars).len() <= 2 * chars.len(),
    decreases chars.len(),
{
    if chars.len() > 0 {
        lemma_utf16_len(chars.drop_last());
        lemma_utf16_units_len(chars.last());
    }
}

/// Encoding distributes over appending one character.
pub proof fn lemma_utf16_push(chars: Seq<char>, c: char)
    ensures
        utf16_of(chars.push(c)) == utf16_of(chars) + utf16_units(c),
{
    assert(chars.push(c).drop_last() == chars);
}

/// The units of a character tell its kind: a character of one unit is no
/// surrogate, and a character of two units is a high surrogate followed by a
/// low one. The units determine the character.
pub proof fn lemma_utf16_units_shape(c: char)
    ensures
        utf16_units(c).len() == 1 ==> !(0xD800 <= utf16_units(c)[0] <= 0xDFFF),
        utf16_units(c).len() == 2 ==> 0xD800 <= utf16_units(c)[0] <= 0xDBFF && 0xDC00
            <= utf16_units(c)[1] <= 0xDFFF,
{
}

/// Two characters with the same units are the same character.
pub proof fn lemma_utf16_units_injective(a: char, b: char)
    requires
        utf16_units(a) == utf16_units(b),
    ensures
        a == b,
{
    let x = a as u32 as int;
    let y = b as u32 as int;
    lemma_utf16_units_len(a);
    lemma_utf16_units_len(b);
    if x < 0x10000 {
        assert(utf16_units(a)[0] == x);
        assert(utf16_units(b)[0] == y);
    } else {
        assert(utf16_units(a)[0] == 0xD800 + (x - 0x10000) / 0x400);
        assert(utf16_units(a)[1] == 0xDC00 + (x - 0x10000) % 0x400);
        assert(utf16_units(b)[0] == 0xD800 + (y - 0x10000) / 0x400);
        assert(utf16_units(b)[1] == 0xDC00 + (y - 0x10000) % 0x400);
    }
    assert(a as u32 == b as u32);
}

/// Two texts with the same encoding are the same text: a sequence of units
/// is the encoding of at most one text.
pub proof fn lemma_utf16_injective(a: Seq<char>, b: Seq<char>)
    requires
        utf16_of(a) == utf16_of(b),
    ensures
        a == b,
    decreases a.len(),
{
    lemma_utf16_len(a);
    lemma_utf16_len(b);
    if a.len() == 0 {
        assert(b.len() == 0);
        assert(a =~= b);
    } else {
        let p = utf16_of(a.drop_last());
        let q = utf16_of(b.drop_last());
        let u = utf16_units(a.last());
        let v = utf16_units(b.last());
        let whole = utf16_of(a);
        assert(whole == p + u);
        assert(whole == q + v);
        lemma_utf16_units_len(a.last());
        lemma_utf16_units_len(b.last());
        lemma_utf16_units_shape(a.last());
        lemma_utf16_units_shape(b.last());
        assert(whole.last() == u.last());
        assert(whole.last() == v.last());
        assert(u.len() == v.len());
        assert(p.len() == q.len());
        assert(p =~= whole.subrange(0, p.len() as int));
        assert(q =~= whole.subrange(0, q.len() as int));
        assert(u =~= whole.subrange(p.len() as int, whole.len() as int));
        assert(v =~= whole.subrange(q.len() as int, whole.len() as int));
        lemma_utf16_units_injective(a.last(), b.last());
        lemma_utf16_injective(a.drop_last(), b.drop_last());
        assert(a =~= a.drop_last().push(a.last()));
        assert(b =~= b.drop_last().push(b.last()));
    }
}

/// Appends the UTF-16 units of `c` to `out`.
fn push_utf16(out: &mut Vec<u16>, c: char)
    ensures
        final(out)@ == old(out)@ + utf16_units(c),
{
    let v: u32 = c as u32;
    if v < 0x10000 {
        out.push(v as u16);
        assert(out@ == old(out)@ + utf16_units(c));
    } else {
        let offset: u32 = v - 0x10000;
        let high: u32 = 0xD800 + offset / 0x400;
        let low: u32 = 0xDC00 + offset % 0x400;
        out.push(high as u16);
        out.push(low as u16);
        assert(out@ == old(out)@ + utf16_units(c));
    }
}

/// Encodes `val` as a wide string for the host: its UTF-16 code units and a
/// terminating zero.
pub fn encode_wstr(val: &str) -> (units: Vec<u16>)
    ensures
        units@ == wstr_of(val@),
{
    let mut units: Vec<u16> = Vec::new();
    for c in it: val.chars()
        invariant
            it.seq() == val@,
            units@ == utf16_of(val@.take(it.index())),
    {
        proof {
            lemma_utf16_push(val@.take(it.index()), c);
            assert(val@.take(it.index()).push(c) == val@.take(it.index() + 1));
        }
        push_utf16(&mut units, c);
    }
    assert(val@.take(val@.len() as int) == val@);
    units.push(0u16);
    units
}

/// Encodes `val` as a narrow string for the host: its UTF-8 bytes and a
/// terminating zero. A text that holds a zero byte has no such form, so the
/// caller rules it out.
pub fn encode_cstr(val: &str) -> (bytes: Vec<u8>)
    requires
        !val.spec_bytes().contains(0u8),
    ensures
        bytes@ == cstr_of(val.spec_bytes()),
{
    let mut bytes: Vec<u8> = val.as_bytes_vec();
    bytes.push(0u8);
    bytes
}

/// True when the two texts hold the same characters.
pub fn str_eq(a: &str, b: &str) -> (same: bool)
    ensures
        same == (a@ == b@),
{
    let x = a.as_bytes();
    let y = b.as_bytes();
    if x.len() != y.len() {
        return false;
    }
    let mut i: usize = 0;
    while i < x.len()
        invariant
            x@ == a.spec_bytes(),
            y@ == b.spec_bytes(),
            x@.len() == y@.len(),
            i <= x@.len(),
            forall|j: int| 0 <= j < i ==> x@[j] == y@[j],
        decreases x@.len() - i,
    {
        if x[i] != y[i] {
            return false;
        }
        i += 1;
    }
    proof {
        assert(x@ =~= y@);
        encode_utf8_decode_utf8(a@);
        encode_utf8_decode_utf8(b@);
    }
    true
}

/// `String::from_utf16` of the standard library: the text whose UTF-16
/// encoding is exactly `units`, or nothing when `units` is the encoding of
/// no text (an unpaired surrogate).
#[verifier::external_body]
fn string_from_utf16(units: &Vec<u16>) -> (text: Option<String>)
    ensures
        text matches Some(s) ==> utf16_of(s@) == units@,
        text is None ==> forall|chars: Seq<char>| #[trigger] utf16_of(chars) != units@,
{
    String::from_utf16(units.as_slice()).ok()
}

/// What `String::from_utf16_lossy` of the standard library makes of
/// `units`: the text that they encode, with the replacement character in
/// place of each unit that is part of no character.
pub uninterp spec fn utf16_lossy(units: Seq<u16>) -> Seq<char>;

/// `String::from_utf16_lossy` of the standard library. The result depends on
/// the units alone, and units that encode a text are decoded as they are:
/// the result then encodes to the units again.
#[verifier::external_body]
pub(crate) fn string_from_utf16_lossy(units: &Vec<u16>) -> (text: String)
    ensures
        text@ == utf16_lossy(units@),
        is_utf16(units@) ==> utf16_of(text@) == units@,
{
    String::from_utf16_lossy(units.as_slice())
}

/// True when `units` is the UTF-16 encoding of some text.
pub open spec fn is_utf16(units: Seq<u16>) -> bool {
    exists|chars: Seq<char>| #[trigger] utf16_of(chars) == units
}

/// The text that `units` encode, if they encode one: the text is unique.
pub open spec fn utf16_text(units: Seq<u16>) -> Option<Seq<char>> {
    if is_utf16(units) {
        Some(choose|chars: Seq<char>| utf16_of(chars) == units)
    } else {
        None
    }
}

/// The text that units encode is the one text with that encoding.
pub proof fn lemma_utf16_text(chars: Seq<char>)
    ensures
        utf16_text(utf16_of(chars)) == Some(chars),
{
    let units = utf16_of(chars);
    assert(is_utf16(units));
    let chosen = choose|other: Seq<char>| utf16_of(other) == units;
    lemma_utf16_injective(chosen, chars);
}

/// Decodes the UTF-16 units that the host wrote into a buffer: the text that
/// the units encode, or nothing when they encode none.
pub fn decode_wstr(units: &Vec<u16>) -> (text: Option<String>)
    ensures
        match text {
            Some(s) => utf16_text(units@) == Some(s@),
            None => utf16_text(units@) is None,
        },
{
    let text = string_from_utf16(units);
    proof {
        if text is Some {
            lemma_utf16_text(text->0@);
        }
    }
    text
}

} // verus!
