//! The bytes of a file as text, and the text as lines.

use vstd::prelude::*;
use vstd::utf8::{decode_utf8, valid_utf8};

verus! {

/// The bytes are not valid UTF-8.
#[derive(Clone, Copy, Debug, PartialEq, Eq)]
pub struct InvalidData;

/// `String::from_utf8` turns bytes that are valid UTF-8 into the text they
/// encode, and fails on all others.
#[verifier::external_body]
fn string_from_utf8(bytes: Vec<u8>) -> (r: Option<String>)
    ensures
        valid_utf8(bytes@) ==> r is Some && r.unwrap()@ == decode_utf8(bytes@),
        !valid_utf8(bytes@) ==> r is None,
{
    String::from_utf8(bytes).ok()
}

/// The text that the bytes of a file encode in UTF-8. Fails where they are
/// not valid UTF-8.
pub fn text_of(bytes: Vec<u8>) -> (r: Result<String, InvalidData>)
    ensures
        valid_utf8(bytes@) ==> r is Ok && r.unwrap()@ == decode_utf8(bytes@),
        !valid_utf8(bytes@) ==> r == Err::<String, InvalidData>(InvalidData),
{
    match string_from_utf8(bytes) {
        Some(text) => Ok(text),
        None => Err(InvalidData),
    }
}

/// The pieces of `text` between its line feeds: one more than it has line
/// feeds, so at least one.
pub open spec fn split_at_line_feeds(text: Seq<char>) -> Seq<Seq<char>>
    decreases text.len(),
{
    if text.len() == 0 {
        seq![Seq::empty()]
    } else {
        let before = split_at_line_feeds(text.drop_last());
        if text.last() == '\n' {
            before.push(Seq::empty())
        } else {
            before.update(before.len() - 1, before.last().push(text.last()))
        }
    }
}

/// `line` without the carriage return at its end, if it has one.
pub open spec fn without_carriage_return(line: Seq<char>) -> Seq<char> {
    if line.len() > 0 && line.last() == '\r' {
        line.drop_last()
    } else {
        line
    }
}

/// The lines of `text`: its pieces between line feeds, each without the
/// carriage return at its end.
pub open spec fn lines_of_text(text: Seq<char>) -> Seq<Seq<char>> {
    split_at_line_feeds(text).map_values(|line: Seq<char>| without_carriage_return(line))
}

proof fn lemma_split_is_not_empty(text: Seq<char>)
    ensures
        split_at_line_feeds(text).len() >= 1,
    decreases text.len(),
{
    if text.len() > 0 {
        lemma_split_is_not_empty(text.drop_last());
    }
}

/// The characters of each text of `lines`.
pub open spec fn texts(lines: Seq<String>) -> Seq<Seq<char>> {
    lines.map_values(|line: String| line@)
}

/// The lines of `text`. A line ends at a line feed, or at a carriage
/// return followed by a line feed, and the text after the last line feed
/// is the last line, empty or not.
pub fn lines_of(text: &str) -> (r: Vec<String>)
    ensures
        texts(r@) == lines_of_text(text@),
{
    let mut lines: Vec<String> = Vec::new();
    let mut current = String::new();
    // a carriage return was read that is not yet in `current`
    let mut pending = false;

    for c in it: text.chars()
        invariant
            it.seq() == text@,
            split_at_line_feeds(text@.take(it.index() as int)).len() == lines@.len() + 1,
            texts(lines@) == split_at_line_feeds(
                text@.take(it.index() as int),
            ).drop_last().map_values(|line: Seq<char>| without_carriage_return(line)),
            split_at_line_feeds(text@.take(it.index() as int)).last() == if pending {
                current@.push('\r')
            } else {
                current@
            },
            !pending ==> current@.len() == 0 || current@.last() != '\r',
    {
        let ghost before = split_at_line_feeds(text@.take(it.index() as int));
        let ghost after = split_at_line_feeds(text@.take(it.index() + 1));
        proof {
            assert(text@.take(it.index() + 1).drop_last() =~= text@.take(it.index() as int));
        }
        if c == '\n' {
            proof {
                assert(after.drop_last() =~= before);
                assert(before =~= before.drop_last().push(before.last()));
                assert(without_carriage_return(before.last()) =~= current@);
                assert(texts(lines@.push(current)) =~= texts(lines@).push(current@));
                assert(after.drop_last().map_values(
                    |line: Seq<char>| without_carriage_return(line),
                ) =~= texts(lines@).push(current@));
            }
            lines.push(current);
            current = String::new();
            pending = false;
        } else {
            if pending {
                current.push('\r');
            }
            if c == '\r' {
                pending = true;
            } else {
                current.push(c);
                pending = false;
            }
            proof {
                assert(after.drop_last() =~= before.drop_last());
            }
        }
    }

    proof {
        assert(text@.take(text@.len() as int) =~= text@);
        let all = split_at_line_feeds(text@);
        assert(all =~= all.drop_last().push(all.last()));
        assert(without_carriage_return(all.last()) =~= current@);
        assert(texts(lines@.push(current)) =~= texts(lines@).push(current@));
        assert(lines_of_text(text@) =~= texts(lines@).push(current@));
    }
    lines.push(current);
    lines
}

} // verus!
