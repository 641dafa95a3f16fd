//! A path cut into the parts that are appended one by one.

use vstd::prelude::*;

verus! {

/// A byte that separates the parts of a path: `/` or `\`.
pub open spec fn is_separator(byte: u8) -> bool {
    byte == 0x2f || byte == 0x5c
}

/// The parts of `path` between its separators: one more than it has
/// separators, so at least one. Two separators in a row, and one at either
/// end, give an empty part.
pub open spec fn parts_of(path: Seq<u8>) -> Seq<Seq<u8>>
    decreases path.len(),
{
    if path.len() == 0 {
        seq![Seq::empty()]
    } else {
        let before = parts_of(path.drop_last());
        if is_separator(path.last()) {
            before.push(Seq::empty())
        } else {
            before.update(before.len() - 1, before.last().push(path.last()))
        }
    }
}

/// The bytes of each part of `parts`.
pub open spec fn part_bytes(parts: Seq<Vec<u8>>) -> Seq<Seq<u8>> {
    parts.map_values(|part: Vec<u8>| part@)
}

/// Cuts `path` at every `/` and `\` into the parts that are appended to a
/// path one by one, so that all of `path` is taken as relative.
pub fn path_parts(path: &[u8]) -> (r: Vec<Vec<u8>>)
    ensures
        part_bytes(r@) == parts_of(path@),
{
    let mut parts: Vec<Vec<u8>> = Vec::new();
    let mut current: Vec<u8> = Vec::new();

    let mut i: usize = 0;
    while i < path.len()
        invariant
            i <= path.len(),
            parts_of(path@.take(i as int)).len() == parts@.len() + 1,
            part_bytes(parts@) == parts_of(path@.take(i as int)).drop_last(),
            parts_of(path@.take(i as int)).last() == current@,
        decreases path.len() - i,
    {
        let byte = path[i];
        let ghost before = parts_of(path@.take(i as int));
        let ghost after = parts_of(path@.take(i + 1));
        proof {
            assert(path@.take(i + 1).drop_last() =~= path@.take(i as int));
        }
        if byte == 0x2f || byte == 0x5c {
            proof {
                assert(after.drop_last() =~= before);
                assert(before =~= before.drop_last().push(before.last()));
                assert(part_bytes(parts@.push(current)) =~= part_bytes(parts@).push(current@));
            }
            parts.push(current);
            current = Vec::new();
        } else {
            current.push(byte);
            proof {
                assert(after.drop_last() =~= before.drop_last());
            }
        }
        i += 1;
    }

    proof {
        assert(path@.take(i as int) =~= path@);
        let all = parts_of(path@);
        assert(all =~= all.drop_last().push(all.last()));
        assert(part_bytes(parts@.push(current)) =~= part_bytes(parts@).push(current@));
    }
    parts.push(current);
    parts
}

} // verus!
