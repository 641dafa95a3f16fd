//! Facts about little-endian words and about absorbing a message word by
//! word, on which the streaming hasher rests.

use vstd::prelude::*;
use crate::crypto::sip_model::{absorb, absorbed, byte_or_zero, le_word, tail_of, word_at};

verus! {

/// Byte `j` of the word `w`, counted from the least significant.
pub open spec fn word_byte(w: u64, j: int) -> u64 {
    (w >> ((8 * j) as u64)) & 0xff
}

/// Two words with the same eight bytes are the same word.
pub proof fn lemma_word_by_bytes(x: u64, y: u64)
    requires
        forall|j: int| 0 <= j < 8 ==> word_byte(x, j) == word_byte(y, j),
    ensures
        x == y,
{
    assert(word_byte(x, 0) == word_byte(y, 0));
    assert(word_byte(x, 1) == word_byte(y, 1));
    assert(word_byte(x, 2) == word_byte(y, 2));
    assert(word_byte(x, 3) == word_byte(y, 3));
    assert(word_byte(x, 4) == word_byte(y, 4));
    assert(word_byte(x, 5) == word_byte(y, 5));
    assert(word_byte(x, 6) == word_byte(y, 6));
    assert(word_byte(x, 7) == word_byte(y, 7));
    assert(x == y) by (bit_vector)
        requires
            (x >> 0) & 0xff == (y >> 0) & 0xff,
            (x >> 8) & 0xff == (y >> 8) & 0xff,
            (x >> 16) & 0xff == (y >> 16) & 0xff,
            (x >> 24) & 0xff == (y >> 24) & 0xff,
            (x >> 32) & 0xff == (y >> 32) & 0xff,
            (x >> 40) & 0xff == (y >> 40) & 0xff,
            (x >> 48) & 0xff == (y >> 48) & 0xff,
            (x >> 56) & 0xff == (y >> 56) & 0xff,
    ;
}

/// The bytes of a word assembled from eight bytes are those bytes.
proof fn lemma_assembled_bytes(
    b0: u64,
    b1: u64,
    b2: u64,
    b3: u64,
    b4: u64,
    b5: u64,
    b6: u64,
    b7: u64,
)
    by (bit_vector)
    requires
        b0 <= 0xff,
        b1 <= 0xff,
        b2 <= 0xff,
        b3 <= 0xff,
        b4 <= 0xff,
        b5 <= 0xff,
        b6 <= 0xff,
        b7 <= 0xff,
    ensures
        ({
            let w = b0 | (b1 << 8) | (b2 << 16) | (b3 << 24) | (b4 << 32) | (b5 << 40) | (b6 << 48)
                | (b7 << 56);
            &&& (w >> 0) & 0xff == b0
            &&& (w >> 8) & 0xff == b1
            &&& (w >> 16) & 0xff == b2
            &&& (w >> 24) & 0xff == b3
            &&& (w >> 32) & 0xff == b4
            &&& (w >> 40) & 0xff == b5
            &&& (w >> 48) & 0xff == b6
            &&& (w >> 56) & 0xff == b7
        }),
{
}

/// Byte `j` of `le_word(bytes)` is byte `j` of `bytes`, or zero past its end.
pub proof fn lemma_le_word_bytes(bytes: Seq<u8>)
    ensures
        forall|j: int| 0 <= j < 8 ==> #[trigger] word_byte(le_word(bytes), j) == byte_or_zero(bytes, j),
{
    lemma_assembled_bytes(
        byte_or_zero(bytes, 0),
        byte_or_zero(bytes, 1),
        byte_or_zero(bytes, 2),
        byte_or_zero(bytes, 3),
        byte_or_zero(bytes, 4),
        byte_or_zero(bytes, 5),
        byte_or_zero(bytes, 6),
        byte_or_zero(bytes, 7),
    );
}

/// The bytes of `x | (y << 8 k)`, where `x` occupies only its low `k` bytes.
proof fn lemma_joined_byte(x: u64, y: u64, k: u64, j: u64)
    by (bit_vector)
    requires
        k < 8,
        j < 8,
        x >> ((8 * k) as u64) == 0,
    ensures
        ((x | (y << ((8 * k) as u64))) >> ((8 * j) as u64)) & 0xff == if j < k {
            (x >> ((8 * j) as u64)) & 0xff
        } else {
            (y >> ((8 * (j - k)) as u64)) & 0xff
        },
{
}

/// A word whose bytes from `k` on are zero has nothing above its low `k` bytes.
proof fn lemma_high_bytes_zero(x: u64, k: u64)
    by (bit_vector)
    requires
        k < 8,
        0 >= k ==> (x >> 0) & 0xff == 0,
        1 >= k ==> (x >> 8) & 0xff == 0,
        2 >= k ==> (x >> 16) & 0xff == 0,
        3 >= k ==> (x >> 24) & 0xff == 0,
        4 >= k ==> (x >> 32) & 0xff == 0,
        5 >= k ==> (x >> 40) & 0xff == 0,
        6 >= k ==> (x >> 48) & 0xff == 0,
        7 >= k ==> (x >> 56) & 0xff == 0,
    ensures
        x >> ((8 * k) as u64) == 0,
{
}

/// The word of `a` followed by `b` is the word of `a` with the word of `b`
/// placed above it.
pub proof fn lemma_le_word_concat(a: Seq<u8>, b: Seq<u8>)
    requires
        a.len() < 8,
    ensures
        le_word(a + b) == le_word(a) | (le_word(b) << ((8 * a.len()) as u64)),
{
    let k = a.len() as u64;
    let x = le_word(a);
    let y = le_word(b);
    let joined = x | (y << ((8 * a.len()) as u64));
    lemma_le_word_bytes(a);
    lemma_le_word_bytes(b);
    lemma_le_word_bytes(a + b);
    assert(word_byte(x, 0) == byte_or_zero(a, 0));
    assert(word_byte(x, 1) == byte_or_zero(a, 1));
    assert(word_byte(x, 2) == byte_or_zero(a, 2));
    assert(word_byte(x, 3) == byte_or_zero(a, 3));
    assert(word_byte(x, 4) == byte_or_zero(a, 4));
    assert(word_byte(x, 5) == byte_or_zero(a, 5));
    assert(word_byte(x, 6) == byte_or_zero(a, 6));
    assert(word_byte(x, 7) == byte_or_zero(a, 7));
    lemma_high_bytes_zero(x, k);
    assert forall|j: int| 0 <= j < 8 implies word_byte(le_word(a + b), j) == word_byte(
        joined,
        j,
    ) by {
        lemma_joined_byte(x, y, k, j as u64);
        if j >= k {
            assert(word_byte(y, j - k) == byte_or_zero(b, j - k));
        }
    }
    lemma_word_by_bytes(le_word(a + b), joined);
}

/// The word of no bytes is zero.
pub proof fn lemma_le_word_empty()
    ensures
        le_word(Seq::<u8>::empty()) == 0,
{
    assert(0u64 | (0u64 << 8) | (0u64 << 16) | (0u64 << 24) | (0u64 << 32) | (0u64 << 40) | (0u64
        << 48) | (0u64 << 56) == 0u64) by (bit_vector);
}

/// A byte alone is its own word.
pub proof fn lemma_le_word_one(bytes: Seq<u8>)
    requires
        bytes.len() == 1,
    ensures
        le_word(bytes) == bytes[0] as u64,
{
    let b = bytes[0] as u64;
    assert(b | (0u64 << 8) | (0u64 << 16) | (0u64 << 24) | (0u64 << 32) | (0u64 << 40) | (0u64
        << 48) | (0u64 << 56) == b) by (bit_vector);
}

/// Two bytes assembled in sixteen bits are the word of those bytes.
pub proof fn lemma_le_word_two(bytes: Seq<u8>)
    requires
        bytes.len() == 2,
    ensures
        le_word(bytes) == ((bytes[0] as u16) | ((bytes[1] as u16) << 8)) as u64,
{
    let b0 = bytes[0];
    let b1 = bytes[1];
    assert((b0 as u64) | ((b1 as u64) << 8) | (0u64 << 16) | (0u64 << 24) | (0u64 << 32) | (0u64
        << 40) | (0u64 << 48) | (0u64 << 56) == ((b0 as u16) | ((b1 as u16) << 8)) as u64)
        by (bit_vector);
}

/// Four bytes assembled in thirty-two bits are the word of those bytes.
pub proof fn lemma_le_word_four(bytes: Seq<u8>)
    requires
        bytes.len() == 4,
    ensures
        le_word(bytes) == ((bytes[0] as u32) | ((bytes[1] as u32) << 8) | ((bytes[2] as u32) << 16)
            | ((bytes[3] as u32) << 24)) as u64,
{
    let b0 = bytes[0];
    let b1 = bytes[1];
    let b2 = bytes[2];
    let b3 = bytes[3];
    assert((b0 as u64) | ((b1 as u64) << 8) | ((b2 as u64) << 16) | ((b3 as u64) << 24) | (0u64
        << 32) | (0u64 << 40) | (0u64 << 48) | (0u64 << 56) == ((b0 as u32) | ((b1 as u32) << 8) | (
    (b2 as u32) << 16) | ((b3 as u32) << 24)) as u64) by (bit_vector);
}

/// The state after `n` words depends on the first `8 n` bytes alone.
pub proof fn lemma_absorbed_prefix(c: nat, k0: u64, k1: u64, m1: Seq<u8>, m2: Seq<u8>, n: nat)
    requires
        8 * n <= m1.len(),
        8 * n <= m2.len(),
        m1.subrange(0, 8 * (n as int)) == m2.subrange(0, 8 * (n as int)),
    ensures
        absorbed(c, k0, k1, m1, n) == absorbed(c, k0, k1, m2, n),
    decreases n,
{
    if n > 0 {
        let head1 = m1.subrange(0, 8 * (n as int));
        let head2 = m2.subrange(0, 8 * (n as int));
        assert(m1.subrange(0, 8 * (n - 1)) =~= head1.subrange(0, 8 * (n - 1)));
        assert(m2.subrange(0, 8 * (n - 1)) =~= head2.subrange(0, 8 * (n - 1)));
        lemma_absorbed_prefix(c, k0, k1, m1, m2, (n - 1) as nat);
        assert(m1.subrange(8 * (n - 1), 8 * (n - 1) + 8) =~= head1.subrange(8 * (n - 1), 8 * (n as int)));
        assert(m2.subrange(8 * (n - 1), 8 * (n - 1) + 8) =~= head2.subrange(8 * (n - 1), 8 * (n as int)));
    }
}

/// Appending bytes leaves the state of the words already complete as it was.
pub proof fn lemma_absorbed_append(c: nat, k0: u64, k1: u64, m: Seq<u8>, data: Seq<u8>, n: nat)
    requires
        8 * n <= m.len(),
    ensures
        absorbed(c, k0, k1, m + data, n) == absorbed(c, k0, k1, m, n),
{
    assert((m + data).subrange(0, 8 * (n as int)) =~= m.subrange(0, 8 * (n as int)));
    lemma_absorbed_prefix(c, k0, k1, m + data, m, n);
}

/// The byte counter after `added` more bytes, kept modulo 2^64.
pub proof fn lemma_length_wraps(before: nat, length: u64, added: usize)
    requires
        length == before % 0x1_0000_0000_0000_0000,
    ensures
        length.wrapping_add(added as u64) == (before + added) % 0x1_0000_0000_0000_0000,
{
}

/// The low byte of the byte counter is the message length modulo 256.
pub proof fn lemma_low_byte(len: nat, length: u64)
    requires
        length == len % 0x1_0000_0000_0000_0000,
    ensures
        length & 0xff == (len % 256) as u64,
{
    assert(length & 0xff == length % 256) by (bit_vector);
    let q = len / 0x1_0000_0000_0000_0000;
    assert(len == q * 0x1_0000_0000_0000_0000 + length);
    assert(q * 0x1_0000_0000_0000_0000 == (q * 0x100_0000_0000_0000) * 256);
    assert(len % 256 == length % 256) by {
        vstd::arithmetic::div_mod::lemma_mod_multiples_vanish(
            (q * 0x100_0000_0000_0000) as int,
            length as int,
            256,
        );
    }
}

/// Bytes that do not complete the pending word only lengthen the tail.
pub proof fn lemma_buffered(c: nat, k0: u64, k1: u64, m: Seq<u8>, data: Seq<u8>)
    requires
        m.len() % 8 + data.len() < 8,
    ensures
        (m + data).len() % 8 == m.len() % 8 + data.len(),
        absorbed(c, k0, k1, m + data, (m + data).len() / 8) == absorbed(c, k0, k1, m, m.len() / 8),
        le_word(tail_of(m + data)) == le_word(tail_of(m)) | (le_word(data) << ((8 * (m.len()
            % 8)) as u64)),
{
    assert(tail_of(m + data) =~= tail_of(m) + data);
    lemma_le_word_concat(tail_of(m), data);
    lemma_absorbed_append(c, k0, k1, m, data, m.len() / 8);
}

/// Bytes that complete the pending word: the tail, with the first bytes of
/// `data` above it, is the next word of the message.
pub proof fn lemma_flushed(c: nat, k0: u64, k1: u64, m: Seq<u8>, data: Seq<u8>)
    requires
        m.len() % 8 != 0,
        m.len() % 8 + data.len() >= 8,
    ensures
        8 * (m.len() / 8 + 1) == m.len() + (8 - m.len() % 8),
        absorbed(c, k0, k1, m + data, m.len() / 8 + 1) == absorb(
            absorbed(c, k0, k1, m, m.len() / 8),
            le_word(tail_of(m)) | (le_word(data.subrange(0, 8 - m.len() % 8)) << ((8 * (m.len()
                % 8)) as u64)),
            c,
        ),
{
    let q = (m.len() / 8) as int;
    let head = data.subrange(0, 8 - m.len() % 8);
    assert((m + data).subrange(8 * q, 8 * q + 8) =~= tail_of(m) + head);
    lemma_le_word_concat(tail_of(m), head);
    lemma_absorbed_append(c, k0, k1, m, data, m.len() / 8);
}

/// With no word pending, appended bytes leave the state as it was.
pub proof fn lemma_unbuffered(c: nat, k0: u64, k1: u64, m: Seq<u8>, data: Seq<u8>)
    requires
        m.len() % 8 == 0,
    ensures
        8 * (m.len() / 8) == m.len(),
        absorbed(c, k0, k1, m + data, m.len() / 8) == absorbed(c, k0, k1, m, m.len() / 8),
{
    lemma_absorbed_append(c, k0, k1, m, data, m.len() / 8);
}

/// Absorbing the eight bytes at offset `i` of `data`, where `n` words lie
/// before them, gives the state after `n + 1` words.
pub proof fn lemma_next_word(
    c: nat,
    k0: u64,
    k1: u64,
    m: Seq<u8>,
    data: Seq<u8>,
    i: int,
    n: nat,
)
    requires
        0 <= i,
        i + 8 <= data.len(),
        8 * n == m.len() + i,
    ensures
        absorbed(c, k0, k1, m + data, n + 1) == absorb(
            absorbed(c, k0, k1, m + data, n),
            le_word(data.subrange(i, i + 8)),
            c,
        ),
{
    let at = 8 * (n as int);
    assert((m + data).subrange(at, at + 8) =~= data.subrange(i, i + 8));
}

/// Where the last word boundary lies at offset `i` of `data`, after `n`
/// words, the rest of `data` is the tail.
pub proof fn lemma_closed(m: Seq<u8>, data: Seq<u8>, i: int, n: nat)
    requires
        0 <= i <= data.len(),
        data.len() - i < 8,
        8 * n == m.len() + i,
    ensures
        tail_of(m + data) == data.subrange(i, data.len() as int),
        (m + data).len() % 8 == data.len() - i,
        (m + data).len() / 8 == n,
{
    assert(tail_of(m + data) =~= data.subrange(i, data.len() as int));
}

} // verus!
