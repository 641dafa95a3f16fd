//! Bytes written as hexadecimal digits, and read back.

use vstd::prelude::*;
use vstd::string::StringSliceAdditionalSpecFns;

verus! {

/// The digit for a value below sixteen, with letters in the given case:
/// `0` to `9` (from `0x30`), then `A` to `F` (from `0x41`) or `a` to `f`
/// (from `0x61`).
pub open spec fn hex_digit(n: u8, upper: bool) -> char {
    if n < 10 {
        (0x30 + n) as u8 as char
    } else if upper {
        (0x41 + (n - 10)) as u8 as char
    } else {
        (0x61 + (n - 10)) as u8 as char
    }
}

/// Character `i` of the hexadecimal form: the high half of a byte, then
/// its low half.
pub open spec fn hex_char_at(data: Seq<u8>, upper: bool, i: int) -> char {
    if i % 2 == 0 {
        hex_digit(data[i / 2] >> 4, upper)
    } else {
        hex_digit(data[i / 2] & 0xf, upper)
    }
}

/// The hexadecimal form of `data`: two digits for each byte, in order.
pub open spec fn hex_chars(data: Seq<u8>, upper: bool) -> Seq<char> {
    Seq::new(2 * data.len(), |i: int| hex_char_at(data, upper, i))
}

fn digit_char(n: u8, upper: bool) -> (c: char)
    requires
        n < 16,
    ensures
        c == hex_digit(n, upper),
{
    if n < 10 {
        (0x30u8 + n) as char
    } else if upper {
        (0x41u8 + (n - 10)) as char
    } else {
        (0x61u8 + (n - 10)) as char
    }
}

fn write_hex(data: &[u8], upper: bool) -> (r: String)
    ensures
        r@ == hex_chars(data@, upper),
{
    let mut out = String::new();
    let mut i: usize = 0;
    while i < data.len()
        invariant
            i <= data.len(),
            out@ == hex_chars(data@.take(i as int), upper),
        decreases data.len() - i,
    {
        let byte = data[i];
        assert(byte >> 4 < 16 && byte & 0xf < 16) by (bit_vector);
        out.push(digit_char(byte >> 4, upper));
        out.push(digit_char(byte & 0xf, upper));
        i += 1;
        assert(out@ =~= hex_chars(data@.take(i as int), upper));
    }
    assert(data@.take(i as int) =~= data@);
    out
}

/// The bytes of `data` as lower-case hexadecimal digits, two for each byte.
pub fn to_hex(data: &[u8]) -> (r: String)
    ensures
        r@ == hex_chars(data@, false),
{
    HexSlice(data).lower_hex()
}

/// A slice of bytes that is shown as hexadecimal digits.
pub struct HexSlice<'a>(pub &'a [u8]);

impl<'a> HexSlice<'a> {
    /// Two lower-case hexadecimal digits for each byte.
    pub fn lower_hex(&self) -> (r: String)
        ensures
            r@ == hex_chars(self.0@, false),
    {
        write_hex(self.0, false)
    }

    /// Two upper-case hexadecimal digits for each byte.
    pub fn upper_hex(&self) -> (r: String)
        ensures
            r@ == hex_chars(self.0@, true),
    {
        write_hex(self.0, true)
    }

    /// The text shown for the slice: its lower-case hexadecimal digits.
    pub fn to_string(&self) -> (r: String)
        ensures
            r@ == hex_chars(self.0@, false),
    {
        self.lower_hex()
    }
}

/// Why a text could not be read as hexadecimal digits.
#[derive(Clone, Copy, Debug, PartialEq, Eq)]
pub enum HexError {
    /// A character is neither a hexadecimal digit nor white space, or the
    /// digits do not pair up into bytes.
    InvalidInput,
}

/// White space that may stand anywhere between digits: space, carriage
/// return, line feed, tab.
pub open spec fn is_hex_space(b: u8) -> bool {
    b == 0x20 || b == 0x0d || b == 0x0a || b == 0x09
}

/// The value of a hexadecimal digit in either case, if `b` is one.
pub open spec fn hex_value(b: u8) -> Option<u8> {
    if 0x30 <= b <= 0x39 {
        Some((b - 0x30) as u8)
    } else if 0x41 <= b <= 0x46 {
        Some((b - 0x41 + 10) as u8)
    } else if 0x61 <= b <= 0x66 {
        Some((b - 0x61 + 10) as u8)
    } else {
        None
    }
}

/// The bytes of `text` that are not white space, in order.
pub open spec fn hex_digits(text: Seq<u8>) -> Seq<u8>
    decreases text.len(),
{
    if text.len() == 0 {
        Seq::empty()
    } else if is_hex_space(text.last()) {
        hex_digits(text.drop_last())
    } else {
        hex_digits(text.drop_last()).push(text.last())
    }
}

/// `b` is a hexadecimal digit or white space.
pub open spec fn is_hex_byte(b: u8) -> bool {
    is_hex_space(b) || hex_value(b).is_some()
}

/// Every byte of `text` is a hexadecimal digit or white space.
pub open spec fn all_hex(text: Seq<u8>) -> bool {
    forall|i: int| 0 <= i < text.len() ==> is_hex_byte(#[trigger] text[i])
}

/// `text` can be read: it holds digits and white space only, and an even
/// number of digits.
pub open spec fn is_hex_text(text: Seq<u8>) -> bool {
    all_hex(text) && hex_digits(text).len() % 2 == 0
}

/// The byte that the digits `high` and `low` stand for.
pub open spec fn hex_pair(high: u8, low: u8) -> u8 {
    (hex_value(high).unwrap() << 4) | hex_value(low).unwrap()
}

/// The bytes that the first `n` pairs of `digits` stand for.
pub open spec fn hex_pairs(digits: Seq<u8>, n: nat) -> Seq<u8> {
    Seq::new(n, |i: int| hex_pair(digits[2 * i], digits[2 * i + 1]))
}

/// The bytes that `text` stands for: its digits, two by two.
pub open spec fn hex_bytes(text: Seq<u8>) -> Seq<u8> {
    hex_pairs(hex_digits(text), hex_digits(text).len() / 2)
}

proof fn lemma_hex_digits_next(text: Seq<u8>, i: int)
    requires
        0 <= i < text.len(),
    ensures
        hex_digits(text.take(i + 1)) == if is_hex_space(text[i]) {
            hex_digits(text.take(i))
        } else {
            hex_digits(text.take(i)).push(text[i])
        },
{
    assert(text.take(i + 1).drop_last() =~= text.take(i));
}

proof fn lemma_nibbles(value: u8, digit: u8)
    by (bit_vector)
    requires
        digit < 16,
    ensures
        ((value << 4) | digit) & 0xf == digit,
        (value << 4) | digit == ((value & 0xf) << 4) | digit,
        ((value << 4) >> 4) & 0xf == value & 0xf,
{
}

/// Reads pairs of hexadecimal digits, in either case, as bytes. White space
/// between digits is skipped. Fails where another character occurs or where
/// a digit is left without its pair.
pub fn from_hex(string: &str) -> (r: Result<Vec<u8>, HexError>)
    ensures
        is_hex_text(string.spec_bytes()) ==> r is Ok && r.unwrap()@ == hex_bytes(
            string.spec_bytes(),
        ),
        !is_hex_text(string.spec_bytes()) ==> r == Err::<Vec<u8>, HexError>(HexError::InvalidInput),
{
    let bytes = string.as_bytes();
    let ghost text = bytes@;
    let mut data: Vec<u8> = Vec::new();
    let mut value: u8 = 0;
    let mut processed: usize = 0;

    let mut i: usize = 0;
    while i < bytes.len()
        invariant
            i <= bytes.len(),
            text == bytes@,
            text == string.spec_bytes(),
            all_hex(text.take(i as int)),
            processed == hex_digits(text.take(i as int)).len() % 2,
            data@ == hex_pairs(
                hex_digits(text.take(i as int)),
                hex_digits(text.take(i as int)).len() / 2,
            ),
            processed == 1 ==> value & 0xf == hex_value(
                hex_digits(text.take(i as int)).last(),
            ).unwrap() && hex_value(hex_digits(text.take(i as int)).last()).is_some(),
        decreases bytes.len() - i,
    {
        let byte = bytes[i];
        let ghost before = hex_digits(text.take(i as int));
        proof {
            lemma_hex_digits_next(text, i as int);
        }
        let shifted = value << 4;
        let digit: u8;
        if 0x41 <= byte && byte <= 0x46 {
            digit = byte - 0x41 + 10;
        } else if 0x61 <= byte && byte <= 0x66 {
            digit = byte - 0x61 + 10;
        } else if 0x30 <= byte && byte <= 0x39 {
            digit = byte - 0x30;
        } else if byte == 0x20 || byte == 0x0d || byte == 0x0a || byte == 0x09 {
            proof {
                lemma_nibbles(value, 0);
                assert forall|j: int| 0 <= j < i + 1 implies is_hex_byte(
                #[trigger] text.take(i + 1)[j],
            ) by {
                if j < i {
                    assert(text.take(i as int)[j] == text[j]);
                }
            }
            }
            value = shifted >> 4;
            i += 1;
            continue ;
        } else {
            proof {
                assert(!is_hex_byte(text[i as int]));
                assert(!all_hex(text));
            }
            return Err(HexError::InvalidInput);
        }
        proof {
            lemma_nibbles(value, digit);
            assert forall|j: int| 0 <= j < i + 1 implies is_hex_byte(
                #[trigger] text.take(i + 1)[j],
            ) by {
                if j < i {
                    assert(text.take(i as int)[j] == text[j]);
                }
            }
        }
        value = shifted | digit;
        processed += 1;

        if processed == 2 {
            data.push(value);
            processed = 0;
            proof {
                let after = before.push(byte);
                assert(before.last() == after[2 * (after.len() / 2 - 1)]);
                assert(data@ =~= hex_pairs(after, after.len() / 2));
            }
        } else {
            proof {
                let after = before.push(byte);
                assert(data@ =~= hex_pairs(after, after.len() / 2));
            }
        }
        i += 1;
    }
    proof {
        assert(text.take(i as int) =~= text);
    }

    if processed == 0 {
        Ok(data)
    } else {
        Err(HexError::InvalidInput)
    }
}

} // verus!
