//! A finite map held as a sequence of key-value pairs with pairwise distinct
//! keys. The registry and the cache store their entries this way and state
//! their contracts over the `Map` that `assoc_map` reads off the sequence.

use vstd::prelude::*;

verus! {

/// The map that a key-value sequence denotes; a later pair wins over an
/// earlier one with the same key.
pub open spec fn assoc_map<K, V>(s: Seq<(K, V)>) -> Map<K, V>
    decreases s.len(),
{
    if s.len() == 0 {
        Map::empty()
    } else {
        assoc_map(s.drop_last()).insert(s.last().0, s.last().1)
    }
}

/// No two pairs of the sequence share a key.
pub open spec fn distinct_keys<K, V>(s: Seq<(K, V)>) -> bool {
    forall|i: int, j: int| 0 <= i < j < s.len() ==> s[i].0 != s[j].0
}

/// A key is in the map exactly when some pair of the sequence holds it.
pub proof fn lemma_assoc_map_dom<K, V>(s: Seq<(K, V)>, k: K)
    ensures
        assoc_map(s).contains_key(k) <==> exists|i: int| 0 <= i < s.len() && s[i].0 == k,
    decreases s.len(),
{
    if s.len() > 0 {
        lemma_assoc_map_dom(s.drop_last(), k);
        if s.last().0 != k && exists|i: int| 0 <= i < s.len() && s[i].0 == k {
            let i = choose|i: int| 0 <= i < s.len() && s[i].0 == k;
            assert(s.drop_last()[i] == s[i]);
        }
    }
}

/// Under distinct keys, each pair of the sequence is read back from the map.
pub proof fn lemma_assoc_map_index<K, V>(s: Seq<(K, V)>, i: int)
    requires
        distinct_keys(s),
        0 <= i < s.len(),
    ensures
        assoc_map(s).contains_key(s[i].0),
        assoc_map(s)[s[i].0] == s[i].1,
    decreases s.len(),
{
    if i < s.len() - 1 {
        assert(s.drop_last()[i] == s[i]);
        assert(distinct_keys(s.drop_last())) by {
            assert(forall|x: int, y: int|
                0 <= x < y < s.drop_last().len() ==> s.drop_last()[x] == s[x] && s.drop_last()[y]
                    == s[y]);
        }
        lemma_assoc_map_index(s.drop_last(), i);
        assert(s[i].0 != s.last().0);
    }
}

/// Appending a fresh pair inserts it into the map.
pub proof fn lemma_assoc_map_push<K, V>(s: Seq<(K, V)>, k: K, v: V)
    ensures
        assoc_map(s.push((k, v))) =~= assoc_map(s).insert(k, v),
{
    assert(s.push((k, v)).drop_last() =~= s);
    assert(s.push((k, v)).last() == (k, v));
}

/// Appending a fresh pair keeps the keys distinct.
pub proof fn lemma_distinct_keys_push<K, V>(s: Seq<(K, V)>, k: K, v: V)
    requires
        distinct_keys(s),
        forall|i: int| 0 <= i < s.len() ==> s[i].0 != k,
    ensures
        distinct_keys(s.push((k, v))),
{
}

/// Removing one position removes that key's entry alone.
pub proof fn lemma_assoc_map_remove<K, V>(s: Seq<(K, V)>, i: int)
    requires
        distinct_keys(s),
        0 <= i < s.len(),
    ensures
        assoc_map(s.remove(i)) =~= assoc_map(s).remove(s[i].0),
        distinct_keys(s.remove(i)),
    decreases s.len(),
{
    let t = s.remove(i);
    assert(distinct_keys(t)) by {
        assert(forall|x: int|
            0 <= x < t.len() ==> t[x] == (if x < i {
                s[x]
            } else {
                s[x + 1]
            }));
    }
    if i == s.len() - 1 {
        assert(t =~= s.drop_last());
        lemma_assoc_map_dom(s.drop_last(), s[i].0);
        assert(forall|x: int|
            0 <= x < s.drop_last().len() ==> s.drop_last()[x] == s[x] && s[x].0 != s[i].0);
        assert(!assoc_map(s.drop_last()).contains_key(s[i].0));
        assert(assoc_map(t) =~= assoc_map(s).remove(s[i].0));
    } else {
        assert(t.drop_last() =~= s.drop_last().remove(i));
        assert(t.last() == s.last());
        assert(distinct_keys(s.drop_last())) by {
            assert(forall|x: int| 0 <= x < s.drop_last().len() ==> s.drop_last()[x] == s[x]);
        }
        assert(s.drop_last()[i] == s[i]);
        lemma_assoc_map_remove(s.drop_last(), i);
        assert(s[i].0 != s.last().0);
        assert(assoc_map(t) =~= assoc_map(s).remove(s[i].0));
    }
}

} // verus!
