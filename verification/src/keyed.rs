//! A table of entries keyed by text, stored in a vector with each key once:
//! the map it stands for, and how inserting, replacing and removing an
//! entry changes that map.
use vstd::prelude::*;

verus! {

/// The map that a sequence of keyed entries stands for; a later entry
/// replaces an earlier one with the same key.
pub open spec fn pairs_map<V>(s: Seq<(Seq<char>, V)>) -> Map<Seq<char>, V>
    decreases s.len(),
{
    if s.len() == 0 {
        Map::empty()
    } else {
        pairs_map(s.drop_last()).insert(s.last().0, s.last().1)
    }
}

/// No two entries share a key.
pub open spec fn pair_keys_unique<V>(s: Seq<(Seq<char>, V)>) -> bool {
    forall|i: int, j: int| 0 <= i < j < s.len() ==> s[i].0 != s[j].0
}

/// A key is in the map exactly when an entry has it, and then it maps to
/// that entry's value.
pub proof fn lemma_pairs_map_lookup<V>(s: Seq<(Seq<char>, V)>, k: Seq<char>)
    requires
        pair_keys_unique(s),
    ensures
        pairs_map(s).dom().contains(k) <==> exists|i: int| 0 <= i < s.len() && s[i].0 == k,
        forall|i: int| 0 <= i < s.len() && s[i].0 == k ==> pairs_map(s)[k] == s[i].1,
    decreases s.len(),
{
    if s.len() > 0 {
        let t = s.drop_last();
        lemma_pairs_map_lookup(t, k);
        if s.last().0 != k {
            if exists|i: int| 0 <= i < s.len() && s[i].0 == k {
                let i = choose|i: int| 0 <= i < s.len() && s[i].0 == k;
                assert(t[i].0 == k);
            }
        } else {
            assert(s[s.len() - 1].0 == k);
        }
    }
}

/// Replacing the value of an entry replaces it in the map.
pub proof fn lemma_pairs_map_update<V>(s: Seq<(Seq<char>, V)>, i: int, v: V)
    requires
        pair_keys_unique(s),
        0 <= i < s.len(),
    ensures
        pairs_map(s.update(i, (s[i].0, v))) == pairs_map(s).insert(s[i].0, v),
    decreases s.len(),
{
    let x = (s[i].0, v);
    let u = s.update(i, x);
    if i == s.len() - 1 {
        assert(u.drop_last() =~= s.drop_last());
        assert(pairs_map(u) =~= pairs_map(s).insert(x.0, v));
    } else {
        let t = s.drop_last();
        assert(u.drop_last() =~= t.update(i, x));
        lemma_pairs_map_update(t, i, v);
        assert(s.last().0 != x.0);
        assert(pairs_map(u) =~= pairs_map(s).insert(x.0, v));
    }
}

/// Removing an entry removes its key from the map.
pub proof fn lemma_pairs_map_remove<V>(s: Seq<(Seq<char>, V)>, i: int)
    requires
        pair_keys_unique(s),
        0 <= i < s.len(),
    ensures
        pairs_map(s.remove(i)) == pairs_map(s).remove(s[i].0),
        pair_keys_unique(s.remove(i)),
    decreases s.len(),
{
    let k = s[i].0;
    let u = s.remove(i);
    if i == s.len() - 1 {
        assert(u =~= s.drop_last());
        lemma_pairs_map_lookup(s.drop_last(), k);
        assert(!pairs_map(s.drop_last()).dom().contains(k));
        assert(pairs_map(u) =~= pairs_map(s).remove(k));
    } else {
        let t = s.drop_last();
        assert(u.drop_last() =~= t.remove(i));
        assert(u.last() == s.last());
        lemma_pairs_map_remove(t, i);
        assert(s.last().0 != k);
        assert(pairs_map(u) =~= pairs_map(s).remove(k));
    }
}

/// With each key once, the map has as many keys as there are entries.
pub proof fn lemma_pairs_map_len<V>(s: Seq<(Seq<char>, V)>)
    requires
        pair_keys_unique(s),
    ensures
        pairs_map(s).dom().finite(),
        pairs_map(s).dom().len() == s.len(),
    decreases s.len(),
{
    if s.len() > 0 {
        let t = s.drop_last();
        lemma_pairs_map_len(t);
        lemma_pairs_map_lookup(t, s.last().0);
        if pairs_map(t).dom().contains(s.last().0) {
            let j = choose|j: int| 0 <= j < t.len() && t[j].0 == s.last().0;
            assert(s[j].0 == s[s.len() - 1].0);
        }
    }
}

} // verus!
