//! The mathematical definition of SipHash, stated over a whole message.
//!
//! A message is a `Seq<u8>`. Its complete eight-byte groups are read as
//! little-endian words and absorbed one by one into four 64-bit lanes; the
//! bytes left over, together with the low byte of the message length, form a
//! last word; extra rounds then mix the lanes into the digest.

use vstd::prelude::*;

verus! {

/// The four 64-bit lanes of the hash state.
#[derive(Clone, Copy, Debug)]
pub struct State {
    pub v0: u64,
    pub v2: u64,
    pub v1: u64,
    pub v3: u64,
}

/// What a hasher has been given so far: its key and every byte fed to it,
/// in order.
pub struct SipInput {
    pub k0: u64,
    pub k1: u64,
    pub message: Seq<u8>,
}

impl SipInput {
    /// A key with nothing hashed yet.
    pub open spec fn keyed(k0: u64, k1: u64) -> SipInput {
        SipInput { k0, k1, message: Seq::empty() }
    }

    /// The same key with `data` appended to the message.
    pub open spec fn fed(self, data: Seq<u8>) -> SipInput {
        SipInput { k0: self.k0, k1: self.k1, message: self.message + data }
    }

    /// The same key after each chunk of `chunks` was fed in turn.
    pub open spec fn fed_all(self, chunks: Seq<Seq<u8>>) -> SipInput
        decreases chunks.len(),
    {
        if chunks.len() == 0 {
            self
        } else {
            self.fed_all(chunks.drop_last()).fed(chunks.last())
        }
    }
}

impl SipInput {
    /// The SipHash-2-4 digest of the message under the key.
    pub open spec fn digest24(self) -> u64 {
        siphash24(self.k0, self.k1, self.message)
    }

    /// The SipHash-1-3 digest of the message under the key.
    pub open spec fn digest13(self) -> u64 {
        siphash13(self.k0, self.k1, self.message)
    }
}

/// All chunks of `chunks` joined into one sequence.
pub open spec fn concat(chunks: Seq<Seq<u8>>) -> Seq<u8>
    decreases chunks.len(),
{
    if chunks.len() == 0 {
        Seq::empty()
    } else {
        concat(chunks.drop_last()) + chunks.last()
    }
}

/// `x` rotated left by `n` bits, for `0 < n < 64`.
pub open spec fn rotl(x: u64, n: u64) -> u64 {
    (x << n) | (x >> ((64 - n) as u64))
}

/// One round of the add-rotate-xor network. Additions wrap modulo 2^64.
pub open spec fn sip_round(s: State) -> State {
    let v0 = s.v0.wrapping_add(s.v1);
    let v1 = rotl(s.v1, 13) ^ v0;
    let v0 = rotl(v0, 32);
    let v2 = s.v2.wrapping_add(s.v3);
    let v3 = rotl(s.v3, 16) ^ v2;
    let v0 = v0.wrapping_add(v3);
    let v3 = rotl(v3, 21) ^ v0;
    let v2 = v2.wrapping_add(v1);
    let v1 = rotl(v1, 17) ^ v2;
    let v2 = rotl(v2, 32);
    State { v0, v1, v2, v3 }
}

/// `n` rounds, one after the other.
pub open spec fn sip_rounds(s: State, n: nat) -> State
    decreases n,
{
    if n == 0 {
        s
    } else {
        sip_round(sip_rounds(s, (n - 1) as nat))
    }
}

/// The lanes of a fresh hasher: the key xored with four fixed constants,
/// the ASCII text "somepseudorandomlygeneratedbytes" cut into words.
pub open spec fn initial_state(k0: u64, k1: u64) -> State {
    State {
        v0: k0 ^ 0x736f6d6570736575,
        v1: k1 ^ 0x646f72616e646f6d,
        v2: k0 ^ 0x6c7967656e657261,
        v3: k1 ^ 0x7465646279746573,
    }
}

/// Byte `j` of `bytes` widened to a word, or zero past the end.
pub open spec fn byte_or_zero(bytes: Seq<u8>, j: int) -> u64 {
    if 0 <= j < bytes.len() {
        bytes[j] as u64
    } else {
        0
    }
}

/// The little-endian value of the first eight bytes of `bytes`, a shorter
/// sequence being padded with zero bytes.
pub open spec fn le_word(bytes: Seq<u8>) -> u64 {
    byte_or_zero(bytes, 0) | (byte_or_zero(bytes, 1) << 8) | (byte_or_zero(bytes, 2) << 16) | (
    byte_or_zero(bytes, 3) << 24) | (byte_or_zero(bytes, 4) << 32) | (byte_or_zero(bytes, 5) << 40)
        | (byte_or_zero(bytes, 6) << 48) | (byte_or_zero(bytes, 7) << 56)
}

/// Word `i` of the message: bytes `8 i` to `8 i + 7`, little-endian.
pub open spec fn word_at(message: Seq<u8>, i: int) -> u64 {
    le_word(message.subrange(8 * i, 8 * i + 8))
}

/// The state after one word `m` went in: xored into lane 3, `c` rounds,
/// xored into lane 0.
pub open spec fn absorb(s: State, m: u64, c: nat) -> State {
    let t = sip_rounds(State { v0: s.v0, v1: s.v1, v2: s.v2, v3: s.v3 ^ m }, c);
    State { v0: t.v0 ^ m, v1: t.v1, v2: t.v2, v3: t.v3 }
}

/// The state after the first `n` words of the message were absorbed,
/// starting from the keyed initial state.
pub open spec fn absorbed(c: nat, k0: u64, k1: u64, message: Seq<u8>, n: nat) -> State
    decreases n,
{
    if n == 0 {
        initial_state(k0, k1)
    } else {
        absorb(absorbed(c, k0, k1, message, (n - 1) as nat), word_at(message, n - 1), c)
    }
}

/// The bytes after the last complete word: the final `len % 8` bytes.
pub open spec fn tail_of(message: Seq<u8>) -> Seq<u8> {
    message.subrange(message.len() - message.len() % 8, message.len() as int)
}

/// The last word: the low byte of the length in the top byte, the tail
/// bytes, little-endian, below it.
pub open spec fn closing_word(message: Seq<u8>) -> u64 {
    (((message.len() % 256) as u64) << 56) | le_word(tail_of(message))
}

/// The digest of a state `s` closed with the word `b`: `b` is absorbed,
/// `0xff` is xored into lane 2, `d` more rounds run, and the lanes are
/// xored together.
pub open spec fn finalize(s: State, b: u64, c: nat, d: nat) -> u64 {
    let t = absorb(s, b, c);
    let u = sip_rounds(State { v0: t.v0, v1: t.v1, v2: t.v2 ^ 0xff, v3: t.v3 }, d);
    u.v0 ^ u.v1 ^ u.v2 ^ u.v3
}

/// SipHash with `c` rounds per word and `d` closing rounds, of `message`
/// under the key `(k0, k1)`.
pub open spec fn siphash(c: nat, d: nat, k0: u64, k1: u64, message: Seq<u8>) -> u64 {
    finalize(
        absorbed(c, k0, k1, message, message.len() / 8),
        closing_word(message),
        c,
        d,
    )
}

/// The bytes of a machine word, least significant first: four of them
/// where `usize` has 32 bits, eight where it has 64.
pub open spec fn usize_le_bytes(i: usize) -> Seq<u8> {
    Seq::new((usize::BITS / 8) as nat, |j: int| (((i as u64) >> ((8 * j) as u64)) & 0xff) as u8)
}

/// SipHash-2-4.
pub open spec fn siphash24(k0: u64, k1: u64, message: Seq<u8>) -> u64 {
    siphash(2, 4, k0, k1, message)
}

/// SipHash-1-3.
pub open spec fn siphash13(k0: u64, k1: u64, message: Seq<u8>) -> u64 {
    siphash(1, 3, k0, k1, message)
}

} // verus!
