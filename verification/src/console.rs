//! Control sequences for a console.

use vstd::prelude::*;

verus! {

/// The bytes that clear a console and move the cursor to the first row and
/// column: the escape sequences `ESC [ 2 J` and `ESC [ 1 ; 1 H`.
pub open spec fn clear_sequence() -> Seq<u8> {
    seq![0x1b, 0x5b, 0x32, 0x4a, 0x1b, 0x5b, 0x31, 0x3b, 0x31, 0x48]
}

/// Clears a console `stream` by writing clear + reset ansi escapes into it.
pub fn clear_into(stream: &mut Vec<u8>)
    ensures
        final(stream)@ == old(stream)@ + clear_sequence(),
{
    let sequence: [u8; 10] = [0x1b, 0x5b, 0x32, 0x4a, 0x1b, 0x5b, 0x31, 0x3b, 0x31, 0x48];
    assert(sequence@ =~= clear_sequence());
    stream.extend_from_slice(sequence.as_slice());
}

} // verus!
