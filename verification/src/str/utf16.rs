//! Text to UTF-16 and back.

use vstd::prelude::*;
use vstd::slice::slice_subrange;
use std::string::FromUtf16Error;

verus! {

/// The UTF-16 code units of one character: the character itself where it
/// lies below `0x10000`, else a high and a low surrogate that carry ten
/// bits each of its offset from `0x10000`.
pub open spec fn utf16_of_char(c: char) -> Seq<u16> {
    let code = c as u32;
    if code < 0x10000 {
        seq![code as u16]
    } else {
        let offset = (code - 0x10000) as u32;
        seq![(0xd800 + (offset >> 10)) as u16, (0xdc00 + (offset & 0x3ff)) as u16]
    }
}

/// The UTF-16 code units of a text: those of its characters, in order.
pub open spec fn utf16_units(text: Seq<char>) -> Seq<u16>
    decreases text.len(),
{
    if text.len() == 0 {
        Seq::empty()
    } else {
        utf16_units(text.drop_last()) + utf16_of_char(text.last())
    }
}

/// `data` is the UTF-16 form of some text.
pub open spec fn is_utf16(data: Seq<u16>) -> bool {
    exists|text: Seq<char>| utf16_units(text) == data
}

/// The units of `data` before its first zero; all of them where there is
/// none.
pub open spec fn utf16_extent_of(data: Seq<u16>) -> Seq<u16>
    decreases data.len(),
{
    if data.len() == 0 || data[0] == 0 {
        Seq::empty()
    } else {
        seq![data[0]] + utf16_extent_of(data.drop_first())
    }
}

/// The text that `String::from_utf16_lossy` reads from code units.
pub uninterp spec fn utf16_lossy_text(data: Seq<u16>) -> Seq<char>;

/// `std::string::FromUtf16Error`, the failure of `String::from_utf16`.
/// Nothing of its inside is known here.
#[verifier::external_type_specification]
#[verifier::external_body]
pub struct ExFromUtf16Error(FromUtf16Error);

/// `String::from_utf16` decodes UTF-16 into a `String`, and fails where
/// the data is not valid UTF-16: the text it gives encodes to the data
/// again.
#[verifier::external_body]
fn decode_utf16(data: &[u16]) -> (r: Result<String, FromUtf16Error>)
    ensures
        r is Ok <==> is_utf16(data@),
        r is Ok ==> utf16_units(r.unwrap()@) == data@,
{
    String::from_utf16(data)
}

/// `String::from_utf16_lossy` decodes UTF-16 into a `String`, putting the
/// replacement character in place of invalid data.
#[verifier::external_body]
fn decode_utf16_lossy(data: &[u16]) -> (r: String)
    ensures
        r@ == utf16_lossy_text(data@),
{
    String::from_utf16_lossy(data)
}

fn push_utf16(out: &mut Vec<u16>, c: char)
    ensures
        final(out)@ == old(out)@ + utf16_of_char(c),
{
    let ghost start = out@;
    let code = c as u32;
    if code < 0x10000 {
        out.push(code as u16);
    } else {
        let offset = code - 0x10000;
        assert(offset <= 0xfffff);
        assert(offset >> 10 <= 0x3ff && offset & 0x3ff <= 0x3ff) by (bit_vector)
            requires
                offset <= 0xfffff,
        ;
        out.push((0xd800 + (offset >> 10)) as u16);
        out.push((0xdc00 + (offset & 0x3ff)) as u16);
    }
    assert(out@ =~= start + utf16_of_char(c));
}

/// The UTF-16 code units of `string`.
pub fn to_utf16(string: &str) -> (r: Vec<u16>)
    ensures
        r@ == utf16_units(string@),
{
    let mut out: Vec<u16> = Vec::new();
    for c in it: string.chars()
        invariant
            it.seq() == string@,
            out@ == utf16_units(string@.take(it.index() as int)),
    {
        proof {
            assert(string@.take(it.index() + 1).drop_last() =~= string@.take(it.index() as int));
        }
        push_utf16(&mut out, c);
    }
    assert(string@.take(string@.len() as int) =~= string@);
    out
}

/// The UTF-16 code units of `string`, with a zero after them.
pub fn to_utf16_null(string: &str) -> (r: Vec<u16>)
    ensures
        r@ == utf16_units(string@).push(0),
{
    let mut out = to_utf16(string);
    out.push(0);
    out
}

/// Reads UTF-16 as text. Fails where `data` is not valid UTF-16.
pub fn from_utf16(data: &[u16]) -> (r: Result<String, FromUtf16Error>)
    ensures
        r is Ok <==> is_utf16(data@),
        r is Ok ==> utf16_units(r.unwrap()@) == data@,
{
    decode_utf16(data)
}

/// Reads the UTF-16 before the first zero of `data` as text. Fails where
/// that is not valid UTF-16.
pub fn from_utf16_null(data: &[u16]) -> (r: Result<String, FromUtf16Error>)
    ensures
        r is Ok <==> is_utf16(utf16_extent_of(data@)),
        r is Ok ==> utf16_units(r.unwrap()@) == utf16_extent_of(data@),
{
    let data = utf16_extent(data);

    decode_utf16(data)
}

/// Reads UTF-16 as text, with the replacement character for what is not
/// valid.
pub fn from_utf16_lossy(data: &[u16]) -> (r: String)
    ensures
        r@ == utf16_lossy_text(data@),
{
    decode_utf16_lossy(data)
}

/// Reads the UTF-16 before the first zero of `data` as text, with the
/// replacement character for what is not valid.
pub fn from_utf16_lossy_null(data: &[u16]) -> (r: String)
    ensures
        r@ == utf16_lossy_text(utf16_extent_of(data@)),
{
    let data = utf16_extent(data);

    decode_utf16_lossy(data)
}

proof fn lemma_extent_of_prefix(data: Seq<u16>, n: int)
    requires
        0 <= n <= data.len(),
        forall|i: int| 0 <= i < n ==> data[i] != 0,
        n == data.len() || data[n] == 0,
    ensures
        utf16_extent_of(data) == data.take(n),
    decreases n,
{
    if n == 0 {
        assert(data.take(0) =~= Seq::<u16>::empty());
    } else {
        let rest = data.drop_first();
        assert forall|i: int| 0 <= i < n - 1 implies rest[i] != 0 by {
            assert(rest[i] == data[i + 1]);
        }
        lemma_extent_of_prefix(rest, n - 1);
        assert(data.take(n) =~= seq![data[0]] + rest.take(n - 1));
    }
}

/// The part of `data` before its first zero.
fn utf16_extent(data: &[u16]) -> (r: &[u16])
    ensures
        r@ == utf16_extent_of(data@),
{
    let mut length: usize = 0;
    while length < data.len() && data[length] != 0
        invariant
            length <= data.len(),
            forall|i: int| 0 <= i < length ==> data@[i] != 0,
        decreases data.len() - length,
    {
        length += 1;
    }
    proof {
        lemma_extent_of_prefix(data@, length as int);
    }
    slice_subrange(data, 0, length)
}

} // verus!
