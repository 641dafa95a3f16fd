//! SipHash 1-3 and 2-4: a keyed, streaming hash of bytes into 64 bits.
//!
//! A hasher is made from a 128-bit key, takes bytes in any number of calls
//! and in chunks of any size, and can be asked for the digest at any moment
//! without being used up. The digest depends on the key and on the bytes
//! fed so far, not on how they were split into calls.
//!
//! SipHash is a general-purpose keyed hash, good for seeding hash tables. It
//! is not meant for cryptographic use.

use vstd::prelude::*;
use std::marker::PhantomData;
use crate::crypto::sip_model::{
    absorb, absorbed, concat, le_word, rotl, sip_round, sip_rounds, siphash, tail_of,
    usize_le_bytes, SipInput, State,
};
use crate::crypto::sip_lemmas::{
    lemma_buffered, lemma_closed, lemma_flushed, lemma_le_word_concat, lemma_le_word_empty,
    lemma_le_word_four, lemma_le_word_one, lemma_le_word_two, lemma_length_wraps, lemma_low_byte,
    lemma_next_word, lemma_unbuffered,
};

verus! {

/// A SipHash-2-4 hasher: two rounds for each word, four at the end. This is
/// the canonical variant.
pub struct SipHasher24 {
    hasher: HashBase<Sip24Rounds>,
}

/// A SipHash-1-3 hasher: one round for each word, three at the end. Faster,
/// with less mixing.
pub struct SipHasher13 {
    hasher: HashBase<Sip13Rounds>,
}

impl View for SipHasher24 {
    type V = SipInput;

    /// The key, and every byte taken so far.
    closed spec fn view(&self) -> SipInput {
        self.hasher.input()
    }
}

impl View for SipHasher13 {
    type V = SipInput;

    /// The key, and every byte taken so far.
    closed spec fn view(&self) -> SipInput {
        self.hasher.input()
    }
}

impl SipHasher24 {
    /// Creates a new `SipHasher24` with the two initial keys set to 0.
    pub fn new() -> (r: SipHasher24)
        ensures
            r@ == SipInput::keyed(0, 0),
    {
        SipHasher24::new_with_keys(0, 0)
    }

    /// Creates a `SipHasher24` that is keyed off the provided keys.
    pub fn new_with_keys(key0: u64, key1: u64) -> (r: SipHasher24)
        ensures
            r@ == SipInput::keyed(key0, key1),
    {
        SipHasher24 { hasher: HashBase::new_with_keys(key0, key1) }
    }

    /// Takes `data` into the hash. Only the bytes and their order count:
    /// how they are split over calls does not.
    pub fn update(&mut self, data: &[u8])
        ensures
            final(self)@ == old(self)@.fed(data@),
    {
        self.hasher.write(data)
    }

    /// Takes one byte into the hash, as `update` with that byte would.
    pub fn write_u8(&mut self, i: u8)
        ensures
            final(self)@ == old(self)@.fed(seq![i]),
    {
        self.hasher.write_u8(i)
    }

    /// Takes a machine word into the hash, as `update` with its bytes,
    /// least significant first, would.
    pub fn write_usize(&mut self, i: usize)
        ensures
            final(self)@ == old(self)@.fed(usize_le_bytes(i)),
    {
        self.hasher.write_usize(i)
    }

    /// Forgets every byte taken so far and keeps the key: the hasher is as
    /// new.
    pub fn reset(&mut self)
        ensures
            final(self)@ == SipInput::keyed(old(self)@.k0, old(self)@.k1),
    {
        self.hasher.reset()
    }

    /// The SipHash-2-4 digest of the bytes taken so far. The hasher is left
    /// as it was and can take more bytes afterwards.
    pub fn finish(&self) -> (r: u64)
        ensures
            r == self@.digest24(),
    {
        self.hasher.finish()
    }
}

impl SipHasher13 {
    /// Creates a new `SipHasher13` with the two initial keys set to 0.
    pub fn new() -> (r: SipHasher13)
        ensures
            r@ == SipInput::keyed(0, 0),
    {
        SipHasher13::new_with_keys(0, 0)
    }

    /// Creates a `SipHasher13` that is keyed off the provided keys.
    pub fn new_with_keys(key0: u64, key1: u64) -> (r: SipHasher13)
        ensures
            r@ == SipInput::keyed(key0, key1),
    {
        SipHasher13 { hasher: HashBase::new_with_keys(key0, key1) }
    }

    /// Takes `data` into the hash. Only the bytes and their order count:
    /// how they are split over calls does not.
    pub fn update(&mut self, data: &[u8])
        ensures
            final(self)@ == old(self)@.fed(data@),
    {
        self.hasher.write(data)
    }

    /// Takes one byte into the hash, as `update` with that byte would.
    pub fn write_u8(&mut self, i: u8)
        ensures
            final(self)@ == old(self)@.fed(seq![i]),
    {
        self.hasher.write_u8(i)
    }

    /// Takes a machine word into the hash, as `update` with its bytes,
    /// least significant first, would.
    pub fn write_usize(&mut self, i: usize)
        ensures
            final(self)@ == old(self)@.fed(usize_le_bytes(i)),
    {
        self.hasher.write_usize(i)
    }

    /// Forgets every byte taken so far and keeps the key: the hasher is as
    /// new.
    pub fn reset(&mut self)
        ensures
            final(self)@ == SipInput::keyed(old(self)@.k0, old(self)@.k1),
    {
        self.hasher.reset()
    }

    /// The SipHash-1-3 digest of the bytes taken so far. The hasher is left
    /// as it was and can take more bytes afterwards.
    pub fn finish(&self) -> (r: u64)
        ensures
            r == self@.digest13(),
    {
        self.hasher.finish()
    }
}

impl std::hash::Hasher for SipHasher24 {
    fn write(&mut self, data: &[u8])
        ensures
            final(self)@ == old(self)@.fed(data@),
    {
        self.hasher.write(data)
    }

    fn finish(&self) -> (r: u64)
        ensures
            r == self@.digest24(),
    {
        self.hasher.finish()
    }
}

impl std::hash::Hasher for SipHasher13 {
    fn write(&mut self, data: &[u8])
        ensures
            final(self)@ == old(self)@.fed(data@),
    {
        self.hasher.write(data)
    }

    fn finish(&self) -> (r: u64)
        ensures
            r == self@.digest13(),
    {
        self.hasher.finish()
    }
}

impl Clone for SipHasher24 {
    fn clone(&self) -> (r: SipHasher24)
        ensures
            r@ == self@,
    {
        SipHasher24 { hasher: self.hasher.clone() }
    }
}

impl Clone for SipHasher13 {
    fn clone(&self) -> (r: SipHasher13)
        ensures
            r@ == self@,
    {
        SipHasher13 { hasher: self.hasher.clone() }
    }
}

impl Default for SipHasher24 {
    fn default() -> (r: SipHasher24)
        ensures
            r@ == SipInput::keyed(0, 0),
    {
        SipHasher24 { hasher: HashBase::default() }
    }
}

impl Default for SipHasher13 {
    fn default() -> (r: SipHasher13)
        ensures
            r@ == SipInput::keyed(0, 0),
    {
        SipHasher13 { hasher: HashBase::default() }
    }
}

/// Feeding a message in chunks, one call for each, leaves a hasher with the
/// same input, and so the same digest in either variant, as feeding the
/// joined chunks in one call.
pub proof fn lemma_chunking_is_invisible(input: SipInput, chunks: Seq<Seq<u8>>)
    ensures
        input.fed_all(chunks) == input.fed(concat(chunks)),
        input.fed_all(chunks).digest24() == input.fed(concat(chunks)).digest24(),
        input.fed_all(chunks).digest13() == input.fed(concat(chunks)).digest13(),
    decreases chunks.len(),
{
    if chunks.len() == 0 {
        assert(input.message + concat(chunks) =~= input.message);
    } else {
        lemma_chunking_is_invisible(input, chunks.drop_last());
        assert((input.message + concat(chunks.drop_last())) + chunks.last() =~= input.message
            + concat(chunks));
    }
}

/// Two calls feeding `first` and then `second` leave a hasher as one call
/// feeding `first + second` does.
pub proof fn lemma_split_is_invisible(input: SipInput, first: Seq<u8>, second: Seq<u8>)
    ensures
        input.fed(first).fed(second) == input.fed(first + second),
{
    assert((input.message + first) + second =~= input.message + (first + second));
}

/// The digest is determined by the key and the bytes: hashers with the same
/// key that took the same bytes, however each got them, have the same
/// digest.
pub proof fn lemma_digest_is_determined(a: SipInput, b: SipInput)
    requires
        a.k0 == b.k0,
        a.k1 == b.k1,
        a.message =~= b.message,
    ensures
        a.digest24() == b.digest24(),
        a.digest13() == b.digest13(),
{
}

/// Asking twice gives the same answer: `finish` leaves the hasher as it
/// was, so what two calls with no `update` between them return, `first` and
/// `second`, is the digest of one and the same input.
pub proof fn lemma_finish_is_repeatable(hasher: SipHasher24, first: u64, second: u64)
    requires
        first == hasher@.digest24(),
        second == hasher@.digest24(),
    ensures
        first == second,
{
}

/// Asking a 1-3 hasher twice gives the same answer, for the same reason.
pub proof fn lemma_finish_13_is_repeatable(hasher: SipHasher13, first: u64, second: u64)
    requires
        first == hasher@.digest13(),
        second == hasher@.digest13(),
    ensures
        first == second,
{
}

fn rotate_left(x: u64, n: u32) -> (r: u64)
    requires
        0 < n < 64,
    ensures
        r == rotl(x, n as u64),
{
    (x << n) | (x >> (64 - n))
}

fn compress(state: &mut State)
    ensures
        *final(state) == sip_round(*old(state)),
{
    state.v0 = state.v0.wrapping_add(state.v1);
    state.v1 = rotate_left(state.v1, 13);
    state.v1 ^= state.v0;
    state.v0 = rotate_left(state.v0, 32);
    state.v2 = state.v2.wrapping_add(state.v3);
    state.v3 = rotate_left(state.v3, 16);
    state.v3 ^= state.v2;
    state.v0 = state.v0.wrapping_add(state.v3);
    state.v3 = rotate_left(state.v3, 21);
    state.v3 ^= state.v0;
    state.v2 = state.v2.wrapping_add(state.v1);
    state.v1 = rotate_left(state.v1, 17);
    state.v1 ^= state.v2;
    state.v2 = rotate_left(state.v2, 32);
}

/// Reads two bytes at `i` as a little-endian integer.
fn load_u16_le(buf: &[u8], i: usize) -> (r: u16)
    requires
        i + 2 <= buf.len(),
    ensures
        r as u64 == le_word(buf@.subrange(i as int, i + 2)),
{
    proof {
        lemma_le_word_two(buf@.subrange(i as int, i + 2));
    }
    (buf[i] as u16) | ((buf[i + 1] as u16) << 8)
}

/// Reads four bytes at `i` as a little-endian integer.
fn load_u32_le(buf: &[u8], i: usize) -> (r: u32)
    requires
        i + 4 <= buf.len(),
    ensures
        r as u64 == le_word(buf@.subrange(i as int, i + 4)),
{
    proof {
        lemma_le_word_four(buf@.subrange(i as int, i + 4));
    }
    (buf[i] as u32) | ((buf[i + 1] as u32) << 8) | ((buf[i + 2] as u32) << 16) | ((buf[i
        + 3] as u32) << 24)
}

/// Reads eight bytes at `i` as a little-endian integer.
fn load_u64_le(buf: &[u8], i: usize) -> (r: u64)
    requires
        i + 8 <= buf.len(),
    ensures
        r == le_word(buf@.subrange(i as int, i + 8)),
{
    (buf[i] as u64) | ((buf[i + 1] as u64) << 8) | ((buf[i + 2] as u64) << 16) | ((buf[i
        + 3] as u64) << 24) | ((buf[i + 4] as u64) << 32) | ((buf[i + 5] as u64) << 40) | ((buf[i
        + 6] as u64) << 48) | ((buf[i + 7] as u64) << 56)
}

/// Reads `len` bytes at `start`, fewer than eight, as a little-endian
/// integer.
fn u8to64_le(buf: &[u8], start: usize, len: usize) -> (r: u64)
    requires
        len < 8,
        start + len <= buf.len(),
    ensures
        r == le_word(buf@.subrange(start as int, start + len)),
{
    // current byte index (from the least significant) in the result
    let mut i: usize = 0;
    let mut out: u64 = 0;
    proof {
        lemma_le_word_empty();
        assert(buf@.subrange(start as int, start + 0) =~= Seq::<u8>::empty());
    }
    if i + 3 < len {
        out = load_u32_le(buf, start + i) as u64;
        i += 4;
    }
    assert(out == le_word(buf@.subrange(start as int, start + i)));
    if i + 1 < len {
        proof {
            let a = buf@.subrange(start as int, start + i);
            let b = buf@.subrange(start + i, start + i + 2);
            lemma_le_word_concat(a, b);
            assert(a + b =~= buf@.subrange(start as int, start + i + 2));
        }
        out |= (load_u16_le(buf, start + i) as u64) << (i * 8);
        i += 2;
    }
    assert(out == le_word(buf@.subrange(start as int, start + i)));
    if i < len {
        proof {
            let a = buf@.subrange(start as int, start + i);
            let b = buf@.subrange(start + i, start + i + 1);
            lemma_le_word_concat(a, b);
            lemma_le_word_one(b);
            assert(a + b =~= buf@.subrange(start as int, start + i + 1));
        }
        out |= (buf[start + i] as u64) << (i * 8);
        i += 1;
    }
    assert(i == len);
    out
}

/// How many rounds a variant runs: `c` for each word, `d` at the end.
trait Sip {
    spec fn c() -> nat;

    spec fn d() -> nat;

    fn c_rounds(state: &mut State)
        ensures
            *final(state) == sip_rounds(*old(state), Self::c()),
    ;

    fn d_rounds(state: &mut State)
        ensures
            *final(state) == sip_rounds(*old(state), Self::d()),
    ;
}

struct Sip13Rounds;

impl Sip for Sip13Rounds {
    spec fn c() -> nat {
        1
    }

    spec fn d() -> nat {
        3
    }

    fn c_rounds(state: &mut State) {
        proof {
            reveal_with_fuel(sip_rounds, 2);
        }
        compress(state);
    }

    fn d_rounds(state: &mut State) {
        proof {
            reveal_with_fuel(sip_rounds, 4);
        }
        compress(state);
        compress(state);
        compress(state);
    }
}

struct Sip24Rounds;

impl Sip for Sip24Rounds {
    spec fn c() -> nat {
        2
    }

    spec fn d() -> nat {
        4
    }

    fn c_rounds(state: &mut State) {
        proof {
            reveal_with_fuel(sip_rounds, 3);
        }
        compress(state);
        compress(state);
    }

    fn d_rounds(state: &mut State) {
        proof {
            reveal_with_fuel(sip_rounds, 5);
        }
        compress(state);
        compress(state);
        compress(state);
        compress(state);
    }
}

/// Takes one message word into the lanes.
fn absorb_word<S: Sip>(state: &mut State, m: u64)
    ensures
        *final(state) == absorb(*old(state), m, S::c()),
{
    state.v3 ^= m;
    S::c_rounds(state);
    state.v0 ^= m;
}

struct HashBase<S: Sip> {
    k0: u64,
    k1: u64,
    length: u64,  // how many bytes we've processed, modulo 2^64
    state: State,  // hash state
    tail: u64,  // unprocessed bytes le
    ntail: usize,  // how many bytes in tail are valid
    marker: PhantomData<S>,
    message: Ghost<Seq<u8>>,  // every byte processed so far
}

impl<S: Sip> HashBase<S> {
    /// The lanes hold every complete word of the message, the tail holds
    /// the bytes after them, and the counter is the message length.
    #[verifier::type_invariant]
    spec fn well_formed(self) -> bool {
        let m = self.message@;
        &&& self.ntail == m.len() % 8
        &&& self.length == m.len() % 0x1_0000_0000_0000_0000
        &&& self.state == absorbed(S::c(), self.k0, self.k1, m, m.len() / 8)
        &&& self.tail == le_word(tail_of(m))
    }

    pub closed spec fn input(&self) -> SipInput {
        SipInput { k0: self.k0, k1: self.k1, message: self.message@ }
    }

    fn new_with_keys(key0: u64, key1: u64) -> (r: HashBase<S>)
        ensures
            r.input() == SipInput::keyed(key0, key1),
    {
        proof {
            lemma_le_word_empty();
            assert(tail_of(Seq::<u8>::empty()) =~= Seq::<u8>::empty());
        }
        HashBase {
            k0: key0,
            k1: key1,
            length: 0,
            state: State {
                v0: key0 ^ 0x736f6d6570736575,
                v1: key1 ^ 0x646f72616e646f6d,
                v2: key0 ^ 0x6c7967656e657261,
                v3: key1 ^ 0x7465646279746573,
            },
            tail: 0,
            ntail: 0,
            marker: PhantomData,
            message: Ghost(Seq::empty()),
        }
    }

    /// Forgets every byte taken so far and keeps the key.
    fn reset(&mut self)
        ensures
            final(self).input() == SipInput::keyed(old(self).input().k0, old(self).input().k1),
    {
        *self = HashBase::new_with_keys(self.k0, self.k1);
    }

    /// Takes `data` into the hash.
    #[verifier::rlimit(50)]
    fn write(&mut self, data: &[u8])
        ensures
            final(self).input() == old(self).input().fed(data@),
    {
        proof {
            use_type_invariant(&*self);
        }
        let ghost before = self.message@;
        let ghost after = before + data@;
        let ghost c = S::c();
        let ghost mut words: nat = before.len() / 8;
        let k0 = self.k0;
        let k1 = self.k1;
        let length = data.len();
        proof {
            lemma_length_wraps(before.len(), self.length, length);
        }
        let total = self.length.wrapping_add(length as u64);
        let mut state = self.state;
        let mut needed: usize = 0;

        if self.ntail != 0 {
            needed = 8 - self.ntail;
            let fill = if length < needed {
                length
            } else {
                needed
            };
            let tail = self.tail | (u8to64_le(data, 0, fill) << (8 * self.ntail));

            if length < needed {
                proof {
                    assert(data@.subrange(0, fill as int) =~= data@);
                    lemma_buffered(c, k0, k1, before, data@);
                }
                *self = HashBase {
                    k0,
                    k1,
                    length: total,
                    state,
                    tail,
                    ntail: self.ntail + length,
                    marker: PhantomData,
                    message: Ghost(after),
                };
                return ;
            } else {
                proof {
                    lemma_flushed(c, k0, k1, before, data@);
                    words = words + 1;
                }
                absorb_word::<S>(&mut state, tail);
            }
        } else {
            proof {
                lemma_unbuffered(c, k0, k1, before, data@);
            }
        }
        // buffered tail is now flushed, process new input.

        let len = length - needed;
        let left = len & 0x7;
        assert(len & 0x7 == len % 8) by (bit_vector);
        let end = length - left;

        let mut i = needed;
        while i < end
            invariant
                needed <= i <= end,
                end == length - left,
                left < 8,
                length == data.len(),
                (end - i) % 8 == 0,
                8 * words == before.len() + i,
                after == before + data@,
                c == S::c(),
                state == absorbed(c, k0, k1, after, words),
            decreases end - i,
        {
            proof {
                lemma_next_word(c, k0, k1, before, data@, i as int, words);
                words = words + 1;
            }
            let mi = load_u64_le(data, i);
            absorb_word::<S>(&mut state, mi);
            i += 8;
        }

        proof {
            lemma_closed(before, data@, i as int, words);
        }
        let tail = u8to64_le(data, i, left);
        *self = HashBase {
            k0,
            k1,
            length: total,
            state,
            tail,
            ntail: left,
            marker: PhantomData,
            message: Ghost(after),
        };
    }

    /// Takes a message of at most eight bytes into the hash: the short
    /// path of `write`, with the same result.
    #[verifier::rlimit(50)]
    fn short_write(&mut self, msg: &[u8])
        requires
            msg.len() <= 8,
        ensures
            final(self).input() == old(self).input().fed(msg@),
    {
        proof {
            use_type_invariant(&*self);
        }
        let ghost before = self.message@;
        let ghost after = before + msg@;
        let ghost c = S::c();
        let k0 = self.k0;
        let k1 = self.k1;
        let length = msg.len();
        proof {
            lemma_length_wraps(before.len(), self.length, length);
        }
        let total = self.length.wrapping_add(length as u64);
        let mut state = self.state;

        let needed = 8 - self.ntail;
        let fill = if length < needed {
            length
        } else {
            needed
        };

        let word;
        if fill == 8 {
            proof {
                lemma_unbuffered(c, k0, k1, before, msg@);
                lemma_next_word(c, k0, k1, before, msg@, 0, before.len() / 8);
            }
            word = load_u64_le(msg, 0);
        } else {
            word = self.tail | (u8to64_le(msg, 0, fill) << (8 * self.ntail));
            if length < needed {
                proof {
                    assert(msg@.subrange(0, fill as int) =~= msg@);
                    lemma_buffered(c, k0, k1, before, msg@);
                }
                *self = HashBase {
                    k0,
                    k1,
                    length: total,
                    state,
                    tail: word,
                    ntail: self.ntail + length,
                    marker: PhantomData,
                    message: Ghost(after),
                };
                return ;
            }
            proof {
                lemma_flushed(c, k0, k1, before, msg@);
            }
        }
        absorb_word::<S>(&mut state, word);

        // buffered tail is now flushed, process new input.
        let left = length - needed;
        proof {
            lemma_closed(before, msg@, needed as int, before.len() / 8 + 1);
        }
        let tail = u8to64_le(msg, needed, left);
        *self = HashBase {
            k0,
            k1,
            length: total,
            state,
            tail,
            ntail: left,
            marker: PhantomData,
            message: Ghost(after),
        };
    }

    /// Takes one byte into the hash.
    fn write_u8(&mut self, i: u8)
        ensures
            final(self).input() == old(self).input().fed(seq![i]),
    {
        let bytes = [i];
        assert(bytes@ =~= seq![i]);
        self.short_write(bytes.as_slice());
    }

    /// Takes a machine word into the hash, least significant byte first.
    fn write_usize(&mut self, i: usize)
        ensures
            final(self).input() == old(self).input().fed(usize_le_bytes(i)),
    {
        let width: usize = (usize::BITS / 8) as usize;
        let word = i as u64;
        let mut bytes: Vec<u8> = Vec::new();
        let mut j: usize = 0;
        while j < width
            invariant
                j <= width <= 8,
                width == usize::BITS / 8,
                word == i as u64,
                bytes@ == Seq::new(j as nat, |k: int| ((word >> ((8 * k) as u64)) & 0xff) as u8),
            decreases width - j,
        {
            let byte = ((word >> (8 * j)) & 0xff) as u8;
            bytes.push(byte);
            j += 1;
            assert(bytes@ =~= Seq::new(
                j as nat,
                |k: int| ((word >> ((8 * k) as u64)) & 0xff) as u8,
            ));
        }
        assert(bytes@ =~= usize_le_bytes(i));
        self.short_write(bytes.as_slice());
    }

    fn finish(&self) -> (r: u64)
        ensures
            r == siphash(S::c(), S::d(), self.input().k0, self.input().k1, self.input().message),
    {
        proof {
            use_type_invariant(self);
        }
        let mut state = self.state;
        let low = self.length & 0xff;
        proof {
            lemma_low_byte(self.message@.len(), self.length);
        }
        let b: u64 = (low << 56) | self.tail;
        absorb_word::<S>(&mut state, b);
        state.v2 ^= 0xff;
        S::d_rounds(&mut state);
        state.v0 ^ state.v1 ^ state.v2 ^ state.v3
    }
}

impl<S: Sip> Clone for HashBase<S> {
    fn clone(&self) -> (r: HashBase<S>)
        ensures
            r.input() == self.input(),
    {
        proof {
            use_type_invariant(self);
        }
        HashBase {
            k0: self.k0,
            k1: self.k1,
            length: self.length,
            state: self.state,
            tail: self.tail,
            ntail: self.ntail,
            marker: self.marker,
            message: self.message,
        }
    }
}

impl<S: Sip> Default for HashBase<S> {
    /// Creates a hasher with the two initial keys set to 0.
    fn default() -> (r: HashBase<S>)
        ensures
            r.input() == SipInput::keyed(0, 0),
    {
        HashBase::new_with_keys(0, 0)
    }
}

} // verus!
