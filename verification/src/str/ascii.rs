//! Operations on the ASCII subset of bytes, characters and text.
//!
//! Be aware that operations on seemingly non-ASCII characters can sometimes
//! have unexpected results: an accented letter that is written as a plain
//! letter followed by a combining accent has its plain letter changed by
//! `to_ascii_uppercase`, while the same letter written as one character
//! stays as it is.

use vstd::prelude::*;
use vstd::string::StringSliceAdditionalSpecFns;
use vstd::utf8::encode_utf8;

verus! {

/// The classes of ASCII characters.
#[derive(Clone, Copy, Debug, PartialEq, Eq)]
pub enum AsciiClass {
    /// `A` to `Z` and `a` to `z`.
    Alphabetic,
    /// `A` to `Z`.
    Uppercase,
    /// `a` to `z`.
    Lowercase,
    /// Letters and digits.
    Alphanumeric,
    /// `0` to `9`.
    Digit,
    /// `0` to `9`, `A` to `F` and `a` to `f`.
    Hexdigit,
    /// The graphic characters that are neither letters nor digits.
    Punctuation,
    /// `!` to `~`.
    Graphic,
    /// Space, tab, line feed, form feed and carriage return.
    Whitespace,
    /// The characters below space, and delete.
    Control,
}

/// Whether the byte `b` is in the class.
pub open spec fn in_class(class: AsciiClass, b: u8) -> bool {
    match class {
        AsciiClass::Alphabetic => 0x41 <= b <= 0x5a || 0x61 <= b <= 0x7a,
        AsciiClass::Uppercase => 0x41 <= b <= 0x5a,
        AsciiClass::Lowercase => 0x61 <= b <= 0x7a,
        AsciiClass::Alphanumeric => 0x30 <= b <= 0x39 || 0x41 <= b <= 0x5a || 0x61 <= b <= 0x7a,
        AsciiClass::Digit => 0x30 <= b <= 0x39,
        AsciiClass::Hexdigit => 0x30 <= b <= 0x39 || 0x41 <= b <= 0x46 || 0x61 <= b <= 0x66,
        AsciiClass::Punctuation => 0x21 <= b <= 0x2f || 0x3a <= b <= 0x40 || 0x5b <= b <= 0x60
            || 0x7b <= b <= 0x7e,
        AsciiClass::Graphic => 0x21 <= b <= 0x7e,
        AsciiClass::Whitespace => b == 0x20 || b == 0x09 || b == 0x0a || b == 0x0c || b == 0x0d,
        AsciiClass::Control => b <= 0x1f || b == 0x7f,
    }
}

/// Whether the character `c` is in the class: it is ASCII, and its byte is.
pub open spec fn char_in_class(class: AsciiClass, c: char) -> bool {
    (c as u32) < 128 && in_class(class, c as u8)
}

/// Whether every byte of `bytes` is in the class.
pub open spec fn all_in_class(class: AsciiClass, bytes: Seq<u8>) -> bool {
    forall|i: int| 0 <= i < bytes.len() ==> in_class(class, #[trigger] bytes[i])
}

/// Whether every byte of `bytes` is ASCII.
pub open spec fn all_ascii(bytes: Seq<u8>) -> bool {
    forall|i: int| 0 <= i < bytes.len() ==> #[trigger] bytes[i] < 128
}

/// The byte in upper case: `a` to `z` become `A` to `Z`.
pub open spec fn upper_byte(b: u8) -> u8 {
    if 0x61 <= b <= 0x7a {
        (b - 0x20) as u8
    } else {
        b
    }
}

/// The byte in lower case: `A` to `Z` become `a` to `z`.
pub open spec fn lower_byte(b: u8) -> u8 {
    if 0x41 <= b <= 0x5a {
        (b + 0x20) as u8
    } else {
        b
    }
}

/// The character in upper case: `a` to `z` become `A` to `Z`.
pub open spec fn upper_char(c: char) -> char {
    if 'a' <= c <= 'z' {
        ((c as u8) - 0x20) as u8 as char
    } else {
        c
    }
}

/// The character in lower case: `A` to `Z` become `a` to `z`.
pub open spec fn lower_char(c: char) -> char {
    if 'A' <= c <= 'Z' {
        ((c as u8) + 0x20) as u8 as char
    } else {
        c
    }
}

/// Whether two sequences of bytes are the same but for the case of their
/// ASCII letters.
pub open spec fn same_ignoring_case(a: Seq<u8>, b: Seq<u8>) -> bool {
    a.len() == b.len() && forall|i: int|
        0 <= i < a.len() ==> lower_byte(#[trigger] a[i]) == lower_byte(b[i])
}

/// Whether the byte `b` is in the class.
pub fn byte_in_class(class: AsciiClass, b: u8) -> (r: bool)
    ensures
        r == in_class(class, b),
{
    match class {
        AsciiClass::Alphabetic => (0x41 <= b && b <= 0x5a) || (0x61 <= b && b <= 0x7a),
        AsciiClass::Uppercase => 0x41 <= b && b <= 0x5a,
        AsciiClass::Lowercase => 0x61 <= b && b <= 0x7a,
        AsciiClass::Alphanumeric => (0x30 <= b && b <= 0x39) || (0x41 <= b && b <= 0x5a) || (0x61
            <= b && b <= 0x7a),
        AsciiClass::Digit => 0x30 <= b && b <= 0x39,
        AsciiClass::Hexdigit => (0x30 <= b && b <= 0x39) || (0x41 <= b && b <= 0x46) || (0x61 <= b
            && b <= 0x66),
        AsciiClass::Punctuation => (0x21 <= b && b <= 0x2f) || (0x3a <= b && b <= 0x40) || (0x5b
            <= b && b <= 0x60) || (0x7b <= b && b <= 0x7e),
        AsciiClass::Graphic => 0x21 <= b && b <= 0x7e,
        AsciiClass::Whitespace => b == 0x20 || b == 0x09 || b == 0x0a || b == 0x0c || b == 0x0d,
        AsciiClass::Control => b <= 0x1f || b == 0x7f,
    }
}

fn code_in_class(class: AsciiClass, c: char) -> (r: bool)
    ensures
        r == char_in_class(class, c),
{
    let code = c as u32;
    code < 128 && byte_in_class(class, code as u8)
}

fn bytes_in_class(class: AsciiClass, bytes: &[u8]) -> (r: bool)
    ensures
        r == all_in_class(class, bytes@),
{
    let mut i: usize = 0;
    while i < bytes.len()
        invariant
            i <= bytes.len(),
            all_in_class(class, bytes@.take(i as int)),
        decreases bytes.len() - i,
    {
        if !byte_in_class(class, bytes[i]) {
            return false;
        }
        i += 1;
        assert forall|j: int| 0 <= j < i implies in_class(class, #[trigger] bytes@.take(i as int)[j]) by {
            if j < i - 1 {
                assert(bytes@.take(i - 1)[j] == bytes@[j]);
            }
        }
    }
    assert(bytes@.take(i as int) =~= bytes@);
    true
}

fn to_upper(b: u8) -> (r: u8)
    ensures
        r == upper_byte(b),
{
    if 0x61 <= b && b <= 0x7a {
        b - 0x20
    } else {
        b
    }
}

fn to_lower(b: u8) -> (r: u8)
    ensures
        r == lower_byte(b),
{
    if 0x41 <= b && b <= 0x5a {
        b + 0x20
    } else {
        b
    }
}

fn bytes_are_ascii(bytes: &[u8]) -> (r: bool)
    ensures
        r == all_ascii(bytes@),
{
    let mut i: usize = 0;
    while i < bytes.len()
        invariant
            i <= bytes.len(),
            forall|j: int| 0 <= j < i ==> #[trigger] bytes@[j] < 128,
        decreases bytes.len() - i,
    {
        if bytes[i] >= 128 {
            return false;
        }
        i += 1;
    }
    true
}

fn bytes_same_ignoring_case(a: &[u8], b: &[u8]) -> (r: bool)
    ensures
        r == same_ignoring_case(a@, b@),
{
    if a.len() != b.len() {
        return false;
    }
    let mut i: usize = 0;
    while i < a.len()
        invariant
            i <= a.len(),
            a.len() == b.len(),
            forall|j: int| 0 <= j < i ==> lower_byte(#[trigger] a@[j]) == lower_byte(b@[j]),
        decreases a.len() - i,
    {
        if to_lower(a[i]) != to_lower(b[i]) {
            return false;
        }
        i += 1;
    }
    true
}

fn char_to_upper(c: char) -> (r: char)
    ensures
        r == upper_char(c),
{
    if 'a' <= c && c <= 'z' {
        ((c as u8) - 0x20) as char
    } else {
        c
    }
}

fn char_to_lower(c: char) -> (r: char)
    ensures
        r == lower_char(c),
{
    if 'A' <= c && c <= 'Z' {
        ((c as u8) + 0x20) as char
    } else {
        c
    }
}

/// `str::make_ascii_uppercase` changes the letters `a` to `z` of the text
/// to upper case where they stand, and nothing else.
#[verifier::external_body]
fn text_to_upper(s: &mut str)
    ensures
        final(s)@ == old(s)@.map_values(|c: char| upper_char(c)),
{
    s.make_ascii_uppercase();
}

/// `str::make_ascii_lowercase` changes the letters `A` to `Z` of the text
/// to lower case where they stand, and nothing else.
#[verifier::external_body]
fn text_to_lower(s: &mut str)
    ensures
        final(s)@ == old(s)@.map_values(|c: char| lower_char(c)),
{
    s.make_ascii_lowercase();
}

/// Extension methods for ASCII-subset only operations.
pub trait AsciiExt {
    type Owned;

    fn is_ascii(&self) -> bool;

    fn to_ascii_uppercase(&self) -> Self::Owned;

    fn to_ascii_lowercase(&self) -> Self::Owned;

    fn eq_ignore_ascii_case(&self, other: &Self) -> bool;

    fn make_ascii_uppercase(&mut self);

    fn make_ascii_lowercase(&mut self);

    fn is_ascii_alphabetic(&self) -> bool;

    fn is_ascii_uppercase(&self) -> bool;

    fn is_ascii_lowercase(&self) -> bool;

    fn is_ascii_alphanumeric(&self) -> bool;

    fn is_ascii_digit(&self) -> bool;

    fn is_ascii_hexdigit(&self) -> bool;

    fn is_ascii_punctuation(&self) -> bool;

    fn is_ascii_graphic(&self) -> bool;

    fn is_ascii_whitespace(&self) -> bool;

    fn is_ascii_control(&self) -> bool;
}

impl AsciiExt for u8 {
    type Owned = u8;

    fn is_ascii(&self) -> (r: bool)
        ensures
            r == (*self < 128),
    {
        *self < 128
    }

    fn to_ascii_uppercase(&self) -> (r: u8)
        ensures
            r == upper_byte(*self),
    {
        to_upper(*self)
    }

    fn to_ascii_lowercase(&self) -> (r: u8)
        ensures
            r == lower_byte(*self),
    {
        to_lower(*self)
    }

    fn eq_ignore_ascii_case(&self, other: &u8) -> (r: bool)
        ensures
            r == (lower_byte(*self) == lower_byte(*other)),
    {
        to_lower(*self) == to_lower(*other)
    }

    fn make_ascii_uppercase(&mut self)
        ensures
            *final(self) == upper_byte(*old(self)),
    {
        *self = to_upper(*self);
    }

    fn make_ascii_lowercase(&mut self)
        ensures
            *final(self) == lower_byte(*old(self)),
    {
        *self = to_lower(*self);
    }

    fn is_ascii_alphabetic(&self) -> (r: bool)
        ensures
            r == in_class(AsciiClass::Alphabetic, *self),
    {
        byte_in_class(AsciiClass::Alphabetic, *self)
    }

    fn is_ascii_uppercase(&self) -> (r: bool)
        ensures
            r == in_class(AsciiClass::Uppercase, *self),
    {
        byte_in_class(AsciiClass::Uppercase, *self)
    }

    fn is_ascii_lowercase(&self) -> (r: bool)
        ensures
            r == in_class(AsciiClass::Lowercase, *self),
    {
        byte_in_class(AsciiClass::Lowercase, *self)
    }

    fn is_ascii_alphanumeric(&self) -> (r: bool)
        ensures
            r == in_class(AsciiClass::Alphanumeric, *self),
    {
        byte_in_class(AsciiClass::Alphanumeric, *self)
    }

    fn is_ascii_digit(&self) -> (r: bool)
        ensures
            r == in_class(AsciiClass::Digit, *self),
    {
        byte_in_class(AsciiClass::Digit, *self)
    }

    fn is_ascii_hexdigit(&self) -> (r: bool)
        ensures
            r == in_class(AsciiClass::Hexdigit, *self),
    {
        byte_in_class(AsciiClass::Hexdigit, *self)
    }

    fn is_ascii_punctuation(&self) -> (r: bool)
        ensures
            r == in_class(AsciiClass::Punctuation, *self),
    {
        byte_in_class(AsciiClass::Punctuation, *self)
    }

    fn is_ascii_graphic(&self) -> (r: bool)
        ensures
            r == in_class(AsciiClass::Graphic, *self),
    {
        byte_in_class(AsciiClass::Graphic, *self)
    }

    fn is_ascii_whitespace(&self) -> (r: bool)
        ensures
            r == in_class(AsciiClass::Whitespace, *self),
    {
        byte_in_class(AsciiClass::Whitespace, *self)
    }

    fn is_ascii_control(&self) -> (r: bool)
        ensures
            r == in_class(AsciiClass::Control, *self),
    {
        byte_in_class(AsciiClass::Control, *self)
    }
}

impl AsciiExt for char {
    type Owned = char;

    fn is_ascii(&self) -> (r: bool)
        ensures
            r == ((*self as u32) < 128),
    {
        (*self as u32) < 128
    }

    fn to_ascii_uppercase(&self) -> (r: char)
        ensures
            r == upper_char(*self),
    {
        char_to_upper(*self)
    }

    fn to_ascii_lowercase(&self) -> (r: char)
        ensures
            r == lower_char(*self),
    {
        char_to_lower(*self)
    }

    fn eq_ignore_ascii_case(&self, other: &char) -> (r: bool)
        ensures
            r == (lower_char(*self) == lower_char(*other)),
    {
        char_to_lower(*self) == char_to_lower(*other)
    }

    fn make_ascii_uppercase(&mut self)
        ensures
            *final(self) == upper_char(*old(self)),
    {
        *self = char_to_upper(*self);
    }

    fn make_ascii_lowercase(&mut self)
        ensures
            *final(self) == lower_char(*old(self)),
    {
        *self = char_to_lower(*self);
    }

    fn is_ascii_alphabetic(&self) -> (r: bool)
        ensures
            r == char_in_class(AsciiClass::Alphabetic, *self),
    {
        code_in_class(AsciiClass::Alphabetic, *self)
    }

    fn is_ascii_uppercase(&self) -> (r: bool)
        ensures
            r == char_in_class(AsciiClass::Uppercase, *self),
    {
        code_in_class(AsciiClass::Uppercase, *self)
    }

    fn is_ascii_lowercase(&self) -> (r: bool)
        ensures
            r == char_in_class(AsciiClass::Lowercase, *self),
    {
        code_in_class(AsciiClass::Lowercase, *self)
    }

    fn is_ascii_alphanumeric(&self) -> (r: bool)
        ensures
            r == char_in_class(AsciiClass::Alphanumeric, *self),
    {
        code_in_class(AsciiClass::Alphanumeric, *self)
    }

    fn is_ascii_digit(&self) -> (r: bool)
        ensures
            r == char_in_class(AsciiClass::Digit, *self),
    {
        code_in_class(AsciiClass::Digit, *self)
    }

    fn is_ascii_hexdigit(&self) -> (r: bool)
        ensures
            r == char_in_class(AsciiClass::Hexdigit, *self),
    {
        code_in_class(AsciiClass::Hexdigit, *self)
    }

    fn is_ascii_punctuation(&self) -> (r: bool)
        ensures
            r == char_in_class(AsciiClass::Punctuation, *self),
    {
        code_in_class(AsciiClass::Punctuation, *self)
    }

    fn is_ascii_graphic(&self) -> (r: bool)
        ensures
            r == char_in_class(AsciiClass::Graphic, *self),
    {
        code_in_class(AsciiClass::Graphic, *self)
    }

    fn is_ascii_whitespace(&self) -> (r: bool)
        ensures
            r == char_in_class(AsciiClass::Whitespace, *self),
    {
        code_in_class(AsciiClass::Whitespace, *self)
    }

    fn is_ascii_control(&self) -> (r: bool)
        ensures
            r == char_in_class(AsciiClass::Control, *self),
    {
        code_in_class(AsciiClass::Control, *self)
    }
}

impl AsciiExt for [u8] {
    type Owned = Vec<u8>;

    fn is_ascii(&self) -> (r: bool)
        ensures
            r == all_ascii(self@),
    {
        bytes_are_ascii(self)
    }

    fn to_ascii_uppercase(&self) -> (r: Vec<u8>)
        ensures
            r@ == self@.map_values(|b: u8| upper_byte(b)),
    {
        let mut out: Vec<u8> = Vec::new();
        let mut i: usize = 0;
        while i < self.len()
            invariant
                i <= self.len(),
                out@ == self@.take(i as int).map_values(|b: u8| upper_byte(b)),
            decreases self.len() - i,
        {
            out.push(to_upper(self[i]));
            i += 1;
            assert(out@ =~= self@.take(i as int).map_values(|b: u8| upper_byte(b)));
        }
        assert(self@.take(i as int) =~= self@);
        out
    }

    fn to_ascii_lowercase(&self) -> (r: Vec<u8>)
        ensures
            r@ == self@.map_values(|b: u8| lower_byte(b)),
    {
        let mut out: Vec<u8> = Vec::new();
        let mut i: usize = 0;
        while i < self.len()
            invariant
                i <= self.len(),
                out@ == self@.take(i as int).map_values(|b: u8| lower_byte(b)),
            decreases self.len() - i,
        {
            out.push(to_lower(self[i]));
            i += 1;
            assert(out@ =~= self@.take(i as int).map_values(|b: u8| lower_byte(b)));
        }
        assert(self@.take(i as int) =~= self@);
        out
    }

    fn eq_ignore_ascii_case(&self, other: &[u8]) -> (r: bool)
        ensures
            r == same_ignoring_case(self@, other@),
    {
        bytes_same_ignoring_case(self, other)
    }

    fn make_ascii_uppercase(&mut self)
        ensures
            final(self)@ == old(self)@.map_values(|b: u8| upper_byte(b)),
    {
        let mut i: usize = 0;
        while i < self.len()
            invariant
                i <= self.len(),
                self@.len() == old(self)@.len(),
                forall|j: int| 0 <= j < i ==> #[trigger] self@[j] == upper_byte(old(self)@[j]),
                forall|j: int| i <= j < self@.len() ==> #[trigger] self@[j] == old(self)@[j],
            decreases self.len() - i,
        {
            let b = to_upper(self[i]);
            self[i] = b;
            i += 1;
        }
        assert(self@ =~= old(self)@.map_values(|b: u8| upper_byte(b)));
    }

    fn make_ascii_lowercase(&mut self)
        ensures
            final(self)@ == old(self)@.map_values(|b: u8| lower_byte(b)),
    {
        let mut i: usize = 0;
        while i < self.len()
            invariant
                i <= self.len(),
                self@.len() == old(self)@.len(),
                forall|j: int| 0 <= j < i ==> #[trigger] self@[j] == lower_byte(old(self)@[j]),
                forall|j: int| i <= j < self@.len() ==> #[trigger] self@[j] == old(self)@[j],
            decreases self.len() - i,
        {
            let b = to_lower(self[i]);
            self[i] = b;
            i += 1;
        }
        assert(self@ =~= old(self)@.map_values(|b: u8| lower_byte(b)));
    }

    fn is_ascii_alphabetic(&self) -> (r: bool)
        ensures
            r == all_in_class(AsciiClass::Alphabetic, self@),
    {
        bytes_in_class(AsciiClass::Alphabetic, self)
    }

    fn is_ascii_uppercase(&self) -> (r: bool)
        ensures
            r == all_in_class(AsciiClass::Uppercase, self@),
    {
        bytes_in_class(AsciiClass::Uppercase, self)
    }

    fn is_ascii_lowercase(&self) -> (r: bool)
        ensures
            r == all_in_class(AsciiClass::Lowercase, self@),
    {
        bytes_in_class(AsciiClass::Lowercase, self)
    }

    fn is_ascii_alphanumeric(&self) -> (r: bool)
        ensures
            r == all_in_class(AsciiClass::Alphanumeric, self@),
    {
        bytes_in_class(AsciiClass::Alphanumeric, self)
    }

    fn is_ascii_digit(&self) -> (r: bool)
        ensures
            r == all_in_class(AsciiClass::Digit, self@),
    {
        bytes_in_class(AsciiClass::Digit, self)
    }

    fn is_ascii_hexdigit(&self) -> (r: bool)
        ensures
            r == all_in_class(AsciiClass::Hexdigit, self@),
    {
        bytes_in_class(AsciiClass::Hexdigit, self)
    }

    fn is_ascii_punctuation(&self) -> (r: bool)
        ensures
            r == all_in_class(AsciiClass::Punctuation, self@),
    {
        bytes_in_class(AsciiClass::Punctuation, self)
    }

    fn is_ascii_graphic(&self) -> (r: bool)
        ensures
            r == all_in_class(AsciiClass::Graphic, self@),
    {
        bytes_in_class(AsciiClass::Graphic, self)
    }

    fn is_ascii_whitespace(&self) -> (r: bool)
        ensures
            r == all_in_class(AsciiClass::Whitespace, self@),
    {
        bytes_in_class(AsciiClass::Whitespace, self)
    }

    fn is_ascii_control(&self) -> (r: bool)
        ensures
            r == all_in_class(AsciiClass::Control, self@),
    {
        bytes_in_class(AsciiClass::Control, self)
    }
}

impl AsciiExt for str {
    type Owned = String;

    fn is_ascii(&self) -> (r: bool)
        ensures
            r == all_ascii(self.spec_bytes()),
    {
        bytes_are_ascii(self.as_bytes())
    }

    fn to_ascii_uppercase(&self) -> (r: String)
        ensures
            r@ == self@.map_values(|c: char| upper_char(c)),
    {
        let mut out = String::new();
        for c in it: self.chars()
            invariant
                it.seq() == self@,
                out@ == self@.take(it.index() as int).map_values(|c: char| upper_char(c)),
        {
            out.push(char_to_upper(c));
            assert(out@ =~= self@.take(it.index() + 1).map_values(|c: char| upper_char(c)));
        }
        assert(self@.take(self@.len() as int) =~= self@);
        out
    }

    fn to_ascii_lowercase(&self) -> (r: String)
        ensures
            r@ == self@.map_values(|c: char| lower_char(c)),
    {
        let mut out = String::new();
        for c in it: self.chars()
            invariant
                it.seq() == self@,
                out@ == self@.take(it.index() as int).map_values(|c: char| lower_char(c)),
        {
            out.push(char_to_lower(c));
            assert(out@ =~= self@.take(it.index() + 1).map_values(|c: char| lower_char(c)));
        }
        assert(self@.take(self@.len() as int) =~= self@);
        out
    }

    fn eq_ignore_ascii_case(&self, other: &str) -> (r: bool)
        ensures
            r == same_ignoring_case(self.spec_bytes(), other.spec_bytes()),
    {
        bytes_same_ignoring_case(self.as_bytes(), other.as_bytes())
    }

    fn make_ascii_uppercase(&mut self)
        ensures
            final(self)@ == old(self)@.map_values(|c: char| upper_char(c)),
    {
        text_to_upper(self);
    }

    fn make_ascii_lowercase(&mut self)
        ensures
            final(self)@ == old(self)@.map_values(|c: char| lower_char(c)),
    {
        text_to_lower(self);
    }

    fn is_ascii_alphabetic(&self) -> (r: bool)
        ensures
            r == all_in_class(AsciiClass::Alphabetic, self.spec_bytes()),
    {
        bytes_in_class(AsciiClass::Alphabetic, self.as_bytes())
    }

    fn is_ascii_uppercase(&self) -> (r: bool)
        ensures
            r == all_in_class(AsciiClass::Uppercase, self.spec_bytes()),
    {
        bytes_in_class(AsciiClass::Uppercase, self.as_bytes())
    }

    fn is_ascii_lowercase(&self) -> (r: bool)
        ensures
            r == all_in_class(AsciiClass::Lowercase, self.spec_bytes()),
    {
        bytes_in_class(AsciiClass::Lowercase, self.as_bytes())
    }

    fn is_ascii_alphanumeric(&self) -> (r: bool)
        ensures
            r == all_in_class(AsciiClass::Alphanumeric, self.spec_bytes()),
    {
        bytes_in_class(AsciiClass::Alphanumeric, self.as_bytes())
    }

    fn is_ascii_digit(&self) -> (r: bool)
        ensures
            r == all_in_class(AsciiClass::Digit, self.spec_bytes()),
    {
        bytes_in_class(AsciiClass::Digit, self.as_bytes())
    }

    fn is_ascii_hexdigit(&self) -> (r: bool)
        ensures
            r == all_in_class(AsciiClass::Hexdigit, self.spec_bytes()),
    {
        bytes_in_class(AsciiClass::Hexdigit, self.as_bytes())
    }

    fn is_ascii_punctuation(&self) -> (r: bool)
        ensures
            r == all_in_class(AsciiClass::Punctuation, self.spec_bytes()),
    {
        bytes_in_class(AsciiClass::Punctuation, self.as_bytes())
    }

    fn is_ascii_graphic(&self) -> (r: bool)
        ensures
            r == all_in_class(AsciiClass::Graphic, self.spec_bytes()),
    {
        bytes_in_class(AsciiClass::Graphic, self.as_bytes())
    }

    fn is_ascii_whitespace(&self) -> (r: bool)
        ensures
            r == all_in_class(AsciiClass::Whitespace, self.spec_bytes()),
    {
        bytes_in_class(AsciiClass::Whitespace, self.as_bytes())
    }

    fn is_ascii_control(&self) -> (r: bool)
        ensures
            r == all_in_class(AsciiClass::Control, self.spec_bytes()),
    {
        bytes_in_class(AsciiClass::Control, self.as_bytes())
    }
}

} // verus!
