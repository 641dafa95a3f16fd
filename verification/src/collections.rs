//! Helpers for sequences of key and value pairs.

use vstd::prelude::*;

verus! {

/// Returns all keys of a sequence of `(key, value)` pairs, in order.
pub fn keys<K, V>(source: Vec<(K, V)>) -> (r: Vec<K>)
    ensures
        r@ == source@.map_values(|pair: (K, V)| pair.0),
{
    let mut out: Vec<K> = Vec::new();
    for pair in it: source
        invariant
            it.seq() == source@,
            out@ == source@.take(it.index() as int).map_values(|pair: (K, V)| pair.0),
    {
        let (k, _) = pair;
        out.push(k);
        assert(out@ =~= source@.take(it.index() + 1).map_values(|pair: (K, V)| pair.0));
    }
    assert(source@.take(source@.len() as int) =~= source@);
    out
}

/// Returns all values of a sequence of `(key, value)` pairs, in order.
pub fn values<K, V>(source: Vec<(K, V)>) -> (r: Vec<V>)
    ensures
        r@ == source@.map_values(|pair: (K, V)| pair.1),
{
    let mut out: Vec<V> = Vec::new();
    for pair in it: source
        invariant
            it.seq() == source@,
            out@ == source@.take(it.index() as int).map_values(|pair: (K, V)| pair.1),
    {
        let (_, v) = pair;
        out.push(v);
        assert(out@ =~= source@.take(it.index() + 1).map_values(|pair: (K, V)| pair.1));
    }
    assert(source@.take(source@.len() as int) =~= source@);
    out
}

} // verus!
