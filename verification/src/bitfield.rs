//! A bitfield over a fixed number of bytes.

use vstd::prelude::*;

verus! {

/// Bit `shift` of a byte, counted from the least significant.
pub open spec fn byte_bit(byte: u8, shift: int) -> bool {
    byte & (1u8 << (shift as u8)) != 0
}

/// Bit `i` of a word, counted from the least significant.
pub open spec fn word_bit(word: u64, i: int) -> bool {
    word & (1u64 << (i as u64)) != 0
}

/// The bits of `bytes`, eight for each byte, the least significant bit of
/// each byte first.
pub open spec fn bits_of(bytes: Seq<u8>) -> Seq<bool> {
    Seq::new(8 * bytes.len(), |i: int| byte_bit(bytes[i / 8], i % 8))
}

proof fn lemma_set_bit(byte: u8, shift: u8, other: u8)
    by (bit_vector)
    requires
        shift < 8,
        other < 8,
    ensures
        ((byte | (1u8 << shift)) & (1u8 << other) != 0) == (other == shift || byte & (1u8 << other)
            != 0),
        ((byte & !(1u8 << shift)) & (1u8 << other) != 0) == (other != shift && byte & (1u8
            << other) != 0),
{
}

proof fn lemma_set_word_bit(word: u64, i: u64, other: u64)
    by (bit_vector)
    requires
        i < 64,
        other < 64,
    ensures
        ((word | (1u64 << i)) & (1u64 << other) != 0) == (other == i || word & (1u64 << other)
            != 0),
        0u64 & (1u64 << other) == 0,
{
}

/// A bitfield: `N` bytes of storage, addressed bit by bit. Bit `i` is bit
/// `i % 8` of byte `i / 8`, so a field of `N` bytes is laid out like an
/// integer of `N` bytes in little-endian order.
///
/// # Examples
///
/// ```text
/// let mut x: BitField<4> = BitField::new([0u8; 4]);
///
/// x.set(0, true);
/// x.set(4, true);
/// x.set(8, true);
/// x.set(16, true);
/// x.set_value(20, 3, 7u64);
///
/// assert_eq!(x.value(), &[17, 1, 113, 0]);
/// ```
#[derive(Debug, Copy, Clone, PartialEq, Eq, PartialOrd, Ord, Hash)]
pub struct BitField<const N: usize> {
    storage: [u8; N],
}

impl<const N: usize> View for BitField<N> {
    type V = Seq<u8>;

    /// The bytes of the storage.
    closed spec fn view(&self) -> Seq<u8> {
        self.storage@
    }
}

impl<const N: usize> BitField<N> {
    /// The bits of the field: `8 N` of them.
    pub open spec fn bits(&self) -> Seq<bool> {
        bits_of(self@)
    }

    /// The value read from `width` bits at `offset`: bit `i` of the value
    /// is bit `offset + i` of the field, and the bits from `width` on are
    /// zero.
    pub open spec fn holds_value(&self, offset: int, width: int, value: u64) -> bool {
        forall|i: int|
            0 <= i < 64 ==> #[trigger] word_bit(value, i) == (i < width && self.bits()[offset + i])
    }

    /// Creates a new bitfield with the specified value.
    pub fn new(storage: [u8; N]) -> (r: Self)
        ensures
            r@ == storage@,
    {
        BitField { storage }
    }

    /// Retrieves the bit at `index`.
    pub fn get(&self, index: usize) -> (r: bool)
        requires
            index < 8 * N,
        ensures
            r == self.bits()[index as int],
    {
        let shift = index % 8;
        let byte = self.storage[index / 8];
        let mask = 1u8 << shift;

        byte & mask != 0
    }

    /// Places `value` at the specified bit `index`.
    pub fn set(&mut self, index: usize, value: bool)
        requires
            index < 8 * N,
        ensures
            final(self).bits() == old(self).bits().update(index as int, value),
    {
        let shift = index % 8;
        let byte = self.storage[index / 8];
        let mask = 1u8 << shift;

        let changed = match value {
            true => byte | mask,
            false => byte & !mask,
        };
        self.storage[index / 8] = changed;
        proof {
            assert forall|i: int| 0 <= i < 8 * N implies self.bits()[i] == old(
                self,
            ).bits().update(index as int, value)[i] by {
                if i / 8 == index / 8 {
                    lemma_set_bit(byte, shift as u8, (i % 8) as u8);
                }
            }
            assert(self.bits() =~= old(self).bits().update(index as int, value));
        }
    }

    /// Retrieves the value at the specified bit range
    /// `[offset..offset + width]`.
    pub fn get_value(&self, offset: usize, width: usize) -> (r: u64)
        requires
            width <= 64,
            offset + width <= 8 * N,
            offset + width <= usize::MAX,
        ensures
            self.holds_value(offset as int, width as int, r),
    {
        let mut value = 0u64;

        proof {
            assert forall|i: int| 0 <= i < 64 implies !#[trigger] word_bit(value, i) by {
                lemma_set_word_bit(0, 0, i as u64);
            }
        }
        let mut i: usize = 0;
        while i < width
            invariant
                i <= width <= 64,
                offset + width <= 8 * N,
                offset + width <= usize::MAX,
                self.holds_value(offset as int, i as int, value),
            decreases width - i,
        {
            let ghost before = value;
            if self.get(offset + i) {
                value |= 1u64 << i;
            }
            proof {
                assert forall|j: int| 0 <= j < 64 implies #[trigger] word_bit(value, j) == (j < i
                    + 1 && self.bits()[offset + j]) by {
                    lemma_set_word_bit(before, i as u64, j as u64);
                    assert(word_bit(before, j) == (j < i && self.bits()[offset + j]));
                }
            }
            i += 1;
        }

        value
    }

    /// Places `value` at the specified bit range `[offset..offset + width]`.
    ///
    /// `value` is truncated if it exceeds the maximum representable value
    /// defined by `(offset, width)`.
    pub fn set_value(&mut self, offset: usize, width: usize, value: u64)
        requires
            width <= 64,
            offset + width <= 8 * N,
            offset + width <= usize::MAX,
        ensures
            final(self).bits().len() == old(self).bits().len(),
            forall|j: int|
                0 <= j < 8 * N ==> #[trigger] final(self).bits()[j] == if offset <= j < offset
                    + width {
                    word_bit(value, j - offset)
                } else {
                    old(self).bits()[j]
                },
    {
        let mut i: usize = 0;
        while i < width
            invariant
                i <= width <= 64,
                offset + width <= 8 * N,
                offset + width <= usize::MAX,
                self.bits().len() == old(self).bits().len(),
                forall|j: int|
                    0 <= j < 8 * N ==> #[trigger] self.bits()[j] == if offset <= j < offset + i {
                        word_bit(value, j - offset)
                    } else {
                        old(self).bits()[j]
                    },
            decreases width - i,
        {
            let mask = 1u64 << i;

            self.set(i + offset, value & mask != 0);
            i += 1;
        }
    }

    /// Returns the raw value of this bitfield.
    pub fn value(&self) -> (r: &[u8; N])
        ensures
            r@ == self@,
    {
        &self.storage
    }
}

} // verus!
