//! Padding text to a width in display columns.

use vstd::prelude::*;
use vstd::string::StringExecFns;
use unicode_width::UnicodeWidthStr;

verus! {

/// The side to which a text is aligned, the padding going to the other.
#[derive(PartialEq, Eq, PartialOrd, Ord, Debug, Clone, Copy)]
pub enum TextAlignment {
    Left,
    Right,
}

/// The number of columns that a text takes when displayed, as the Unicode
/// width tables give it.
pub uninterp spec fn display_width(text: Seq<char>) -> nat;

/// `unicode_width::UnicodeWidthStr::width` gives the displayed width of
/// the text in columns.
#[verifier::external_body]
fn width_of(text: &str) -> (r: usize)
    ensures
        r == display_width(text@),
{
    UnicodeWidthStr::width(text)
}

/// `n` times the character `c`.
pub open spec fn repeated(c: char, n: nat) -> Seq<char> {
    Seq::new(n, |i: int| c)
}

/// `text` padded with `character` to `width` display columns: the padding
/// stands after a text aligned left, before one aligned right. A text
/// that is wide enough stays as it is.
pub open spec fn padded_text(
    text: Seq<char>,
    width: usize,
    character: char,
    alignment: TextAlignment,
) -> Seq<char> {
    if display_width(text) >= width {
        text
    } else {
        let required = (width - display_width(text)) as nat;
        match alignment {
            TextAlignment::Left => text + repeated(character, required),
            TextAlignment::Right => repeated(character, required) + text,
        }
    }
}

fn push_repeated(out: &mut String, character: char, count: usize)
    ensures
        final(out)@ == old(out)@ + repeated(character, count as nat),
{
    let ghost start = out@;
    let mut i: usize = 0;
    while i < count
        invariant
            i <= count,
            out@ == start + repeated(character, i as nat),
        decreases count - i,
    {
        out.push(character);
        i += 1;
        assert(out@ =~= start + repeated(character, i as nat));
    }
}

/// Texts that can be padded to a width.
pub trait PadString {
    /// The characters of the text.
    spec fn text(&self) -> Seq<char>;

    fn pad_left(&self, width: usize) -> (r: String)
        ensures
            r@ == padded_text(self.text(), width, ' ', TextAlignment::Right),
    {
        self.pad(width, ' ', TextAlignment::Right)
    }

    fn pad_right(&self, width: usize) -> (r: String)
        ensures
            r@ == padded_text(self.text(), width, ' ', TextAlignment::Left),
    {
        self.pad(width, ' ', TextAlignment::Left)
    }

    fn pad_left_with(&self, width: usize, character: char) -> (r: String)
        ensures
            r@ == padded_text(self.text(), width, character, TextAlignment::Right),
    {
        self.pad(width, character, TextAlignment::Right)
    }

    fn pad_right_with(&self, width: usize, character: char) -> (r: String)
        ensures
            r@ == padded_text(self.text(), width, character, TextAlignment::Left),
    {
        self.pad(width, character, TextAlignment::Left)
    }

    fn pad_to_width_with_alignment(&self, width: usize, alignment: TextAlignment) -> (r: String)
        ensures
            r@ == padded_text(self.text(), width, ' ', alignment),
    {
        self.pad(width, ' ', alignment)
    }

    fn pad(&self, width: usize, character: char, alignment: TextAlignment) -> (r: String)
        ensures
            r@ == padded_text(self.text(), width, character, alignment),
    ;
}

impl PadString for str {
    open spec fn text(&self) -> Seq<char> {
        self@
    }

    fn pad(&self, width: usize, character: char, alignment: TextAlignment) -> (r: String) {
        let display_columns = width_of(self);

        if display_columns >= width {
            String::from_str(self)
        } else {
            let required = width - display_columns;
            let mut string = String::new();
            let (left, right) = match alignment {
                TextAlignment::Left => (0, required),
                TextAlignment::Right => (required, 0),
            };

            push_repeated(&mut string, character, left);
            string.append(self);
            push_repeated(&mut string, character, right);
            assert(string@ =~= padded_text(self@, width, character, alignment));

            string
        }
    }
}

} // verus!
