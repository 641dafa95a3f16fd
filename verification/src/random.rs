//! Random text and random bytes, from the thread's random number generator.

use vstd::prelude::*;
use rand::seq::SliceRandom;
use rand::Rng;

verus! {

/// The letters `a` to `z`.
pub open spec fn lowercase_alphabet() -> Seq<u8> {
    Seq::new(26, |i: int| (0x61 + i) as u8)
}

/// The letters `a` to `z`, then the digits `0` to `9`.
pub open spec fn lowercase_alphanumeric() -> Seq<u8> {
    Seq::new(36, |i: int| if i < 26 { (0x61 + i) as u8 } else { (0x30 + i - 26) as u8 })
}

/// `SliceRandom::choose` with `rand::thread_rng()` picks one of the items
/// at random; of no items it picks none.
#[verifier::external_body]
fn pick<T: Copy>(items: &[T]) -> (r: Option<T>)
    ensures
        r is None <==> items@.len() == 0,
        r is Some ==> items@.contains(r.unwrap()),
{
    items.choose(&mut rand::thread_rng()).copied()
}

/// `Rng::fill` with `rand::thread_rng()` overwrites the bytes with random
/// ones, as many as there were.
#[verifier::external_body]
fn fill(buffer: &mut Vec<u8>)
    ensures
        final(buffer)@.len() == old(buffer)@.len(),
{
    rand::thread_rng().fill(&mut buffer[..]);
}

/// A text of `length` characters, each picked at random from `alphabet`.
/// From an empty alphabet nothing can be picked, and the text is empty.
pub fn string(alphabet: &[char], length: usize) -> (r: String)
    ensures
        r@.len() == if alphabet@.len() == 0 {
            0
        } else {
            length as int
        },
        forall|i: int| 0 <= i < r@.len() ==> alphabet@.contains(#[trigger] r@[i]),
{
    let mut out = String::new();
    let mut i: usize = 0;
    while i < length
        invariant
            i <= length,
            out@.len() == if alphabet@.len() == 0 {
                0
            } else {
                i as int
            },
            forall|j: int| 0 <= j < out@.len() ==> alphabet@.contains(#[trigger] out@[j]),
        decreases length - i,
    {
        match pick(alphabet) {
            Some(c) => out.push(c),
            None => return out,
        }
        i += 1;
    }
    out
}

/// A text of `length` characters, each one of the bytes of `alphabet`
/// picked at random.
fn string_of_bytes(alphabet: &[u8], length: usize) -> (r: String)
    requires
        alphabet@.len() > 0,
    ensures
        r@.len() == length,
        forall|i: int| 0 <= i < r@.len() ==> alphabet@.contains(#[trigger] r@[i] as u8) && r@[i] as u8 as char == r@[i],
{
    let mut out = String::new();
    let mut i: usize = 0;
    while i < length
        invariant
            i <= length,
            alphabet@.len() > 0,
            out@.len() == i,
            forall|j: int|
                0 <= j < out@.len() ==> alphabet@.contains(#[trigger] out@[j] as u8) && out@[j] as u8 as char == out@[j],
        decreases length - i,
    {
        match pick(alphabet) {
            Some(b) => out.push(b as char),
            None => {},
        }
        i += 1;
    }
    out
}

/// A text of `length` letters, each picked at random from `a` to `z`.
pub fn alpha_string(length: usize) -> (r: String)
    ensures
        r@.len() == length,
        forall|i: int| 0 <= i < r@.len() ==> 'a' <= #[trigger] r@[i] <= 'z',
{
    let alphabet: [u8; 26] = [
        0x61, 0x62, 0x63, 0x64, 0x65, 0x66, 0x67, 0x68, 0x69, 0x6a, 0x6b, 0x6c, 0x6d,
        0x6e, 0x6f, 0x70, 0x71, 0x72, 0x73, 0x74, 0x75, 0x76, 0x77, 0x78, 0x79, 0x7a,
    ];
    assert(alphabet@ =~= lowercase_alphabet());
    let r = string_of_bytes(alphabet.as_slice(), length);
    assert forall|i: int| 0 <= i < r@.len() implies 'a' <= #[trigger] r@[i] <= 'z' by {
        let b = r@[i] as u8;
        assert(alphabet@.contains(b));
        let k = choose|k: int| 0 <= k < alphabet@.len() && alphabet@[k] == b;
        assert(0x61 <= b <= 0x7a);
    }
    r
}

/// A text of `length` characters, each picked at random from `a` to `z`
/// and `0` to `9`.
pub fn alphanumeric_string(length: usize) -> (r: String)
    ensures
        r@.len() == length,
        forall|i: int|
            0 <= i < r@.len() ==> 'a' <= #[trigger] r@[i] <= 'z' || '0' <= r@[i] <= '9',
{
    let alphabet: [u8; 36] = [
        0x61, 0x62, 0x63, 0x64, 0x65, 0x66, 0x67, 0x68, 0x69, 0x6a, 0x6b, 0x6c, 0x6d,
        0x6e, 0x6f, 0x70, 0x71, 0x72, 0x73, 0x74, 0x75, 0x76, 0x77, 0x78, 0x79, 0x7a,
        0x30, 0x31, 0x32, 0x33, 0x34, 0x35, 0x36, 0x37, 0x38, 0x39,
    ];
    assert(alphabet@ =~= lowercase_alphanumeric());
    let r = string_of_bytes(alphabet.as_slice(), length);
    assert forall|i: int| 0 <= i < r@.len() implies 'a' <= #[trigger] r@[i] <= 'z' || '0'
        <= r@[i] <= '9' by {
        let b = r@[i] as u8;
        assert(alphabet@.contains(b));
        let k = choose|k: int| 0 <= k < alphabet@.len() && alphabet@[k] == b;
        assert(0x61 <= b <= 0x7a || 0x30 <= b <= 0x39);
    }
    r
}

/// `length` random bytes.
pub fn vec(length: usize) -> (r: Vec<u8>)
    ensures
        r@.len() == length,
{
    let mut buffer: Vec<u8> = Vec::new();
    buffer.resize(length, 0);
    fill(&mut buffer);
    buffer
}

/// `rand::random` gives sixteen random bytes.
#[verifier::external_body]
pub fn array_16() -> [u8; 16] {
    rand::random::<[u8; 16]>()
}

/// `rand::random` gives thirty-two random bytes.
#[verifier::external_body]
pub fn array_32() -> [u8; 32] {
    rand::random::<[u8; 32]>()
}

} // verus!
