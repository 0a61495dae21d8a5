//! Tables held as lists of key and value pairs.

use vstd::prelude::*;

verus! {

/// The table a list of pairs stands for, a later pair for a key replacing an
/// earlier one.
pub open spec fn pairs_map<K, V>(s: Seq<(K, V)>) -> Map<K, V>
    decreases s.len(),
{
    if s.len() == 0 {
        Map::empty()
    } else {
        pairs_map(s.drop_last()).insert(s.last().0, s.last().1)
    }
}

/// The pairs of `s` whose key is not `k`, in order.
pub open spec fn without<K, V>(s: Seq<(K, V)>, k: K) -> Seq<(K, V)>
    decreases s.len(),
{
    if s.len() == 0 {
        s
    } else if s.last().0 == k {
        without(s.drop_last(), k)
    } else {
        without(s.drop_last(), k).push(s.last())
    }
}

/// Dropping a key's pairs drops the key from the table.
pub proof fn lemma_without<K, V>(s: Seq<(K, V)>, k: K)
    ensures
        pairs_map(without(s, k)) == pairs_map(s).remove(k),
    decreases s.len(),
{
    if s.len() == 0 {
        assert(pairs_map(s).remove(k) =~= Map::<K, V>::empty());
    } else {
        lemma_without(s.drop_last(), k);
        if s.last().0 == k {
            assert(without(s, k) == without(s.drop_last(), k));
            assert(pairs_map(s).remove(k) =~= pairs_map(s.drop_last()).remove(k));
        } else {
            let w = without(s.drop_last(), k);
            assert(without(s, k) == w.push(s.last()));
            assert(w.push(s.last()).drop_last() =~= w);
            assert(pairs_map(without(s, k)) == pairs_map(w).insert(s.last().0, s.last().1));
            assert(pairs_map(s).remove(k) =~= pairs_map(s.drop_last()).remove(k).insert(s.last().0, s.last().1));
        }
    }
}

} // verus!
