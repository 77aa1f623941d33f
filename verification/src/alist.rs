//! Association sequences: the correspondence between a sequence of
//! key-value pairs and the finite map it denotes, later entries winning.

use vstd::prelude::*;

verus! {

/// The map denoted by an association sequence, later entries winning.
pub open spec fn alist_map<K, V>(s: Seq<(K, V)>) -> Map<K, V>
    decreases s.len(),
{
    if s.len() == 0 {
        Map::empty()
    } else {
        alist_map(s.drop_last()).insert(s.last().0, s.last().1)
    }
}

/// Whether the keys of an association sequence are pairwise distinct.
pub open spec fn keys_distinct<K, V>(s: Seq<(K, V)>) -> bool {
    forall|i: int, j: int| 0 <= i < j < s.len() ==> (#[trigger] s[i]).0 != (#[trigger] s[j]).0
}

/// The denoted map contains exactly the keys of the sequence.
pub proof fn lemma_alist_contains<K, V>(s: Seq<(K, V)>, k: K)
    ensures
        alist_map(s).contains_key(k) <==> exists|i: int| 0 <= i < s.len() && (#[trigger] s[i]).0 == k,
    decreases s.len(),
{
    if s.len() > 0 {
        let prefix = s.drop_last();
        lemma_alist_contains(prefix, k);
        if s.last().0 == k {
            assert((#[trigger] s[s.len() - 1]).0 == k);
        } else {
            if alist_map(s).contains_key(k) {
                let i = choose|i: int| 0 <= i < prefix.len() && (#[trigger] prefix[i]).0 == k;
                assert(s[i].0 == k);
            }
            if exists|i: int| 0 <= i < s.len() && (#[trigger] s[i]).0 == k {
                let i = choose|i: int| 0 <= i < s.len() && (#[trigger] s[i]).0 == k;
                if i < s.len() - 1 {
                    assert(prefix[i].0 == k);
                }
            }
        }
    }
}

/// An entry whose key has no later duplicate gives the denoted map's value
/// at that key.
pub proof fn lemma_alist_index<K, V>(s: Seq<(K, V)>, i: int)
    requires
        0 <= i < s.len(),
        forall|j: int| i < j < s.len() ==> (#[trigger] s[j]).0 != s[i].0,
    ensures
        alist_map(s).contains_key(s[i].0),
        alist_map(s)[s[i].0] == s[i].1,
    decreases s.len(),
{
    if i < s.len() - 1 {
        let prefix = s.drop_last();
        lemma_alist_index(prefix, i);
    }
}

/// Appending an entry denotes inserting it into the map.
pub proof fn lemma_alist_push<K, V>(s: Seq<(K, V)>, p: (K, V))
    ensures
        alist_map(s.push(p)) == alist_map(s).insert(p.0, p.1),
{
    assert(s.push(p).drop_last() =~= s);
    assert(s.push(p).last() == p);
}

/// Replacing the value of an entry whose key has no later duplicate
/// denotes inserting the new value into the map.
pub proof fn lemma_alist_update<K, V>(s: Seq<(K, V)>, i: int, v: V)
    requires
        0 <= i < s.len(),
        forall|j: int| i < j < s.len() ==> (#[trigger] s[j]).0 != s[i].0,
    ensures
        alist_map(s.update(i, (s[i].0, v))) == alist_map(s).insert(s[i].0, v),
    decreases s.len(),
{
    let t = s.update(i, (s[i].0, v));
    if i == s.len() - 1 {
        assert(t.drop_last() =~= s.drop_last());
        assert(t.last() == (s[i].0, v));
        assert(alist_map(t) =~= alist_map(s).insert(s[i].0, v));
    } else {
        lemma_alist_update(s.drop_last(), i, v);
        assert(t.drop_last() =~= s.drop_last().update(i, (s[i].0, v)));
        assert(t.last() == s.last());
        assert(alist_map(t) =~= alist_map(s).insert(s[i].0, v));
    }
}

/// Removing the entry of a key, when keys are distinct, denotes removing
/// the key from the map; distinctness is preserved.
pub proof fn lemma_alist_remove<K, V>(s: Seq<(K, V)>, i: int)
    requires
        0 <= i < s.len(),
        keys_distinct(s),
    ensures
        alist_map(s.remove(i)) == alist_map(s).remove(s[i].0),
        keys_distinct(s.remove(i)),
    decreases s.len(),
{
    assert forall|a: int, b: int| 0 <= a < b < s.remove(i).len() implies (#[trigger] s.remove(
        i,
    )[a]).0 != (#[trigger] s.remove(i)[b]).0 by {
        if b < i {
            assert(s.remove(i)[a] == s[a] && s.remove(i)[b] == s[b]);
        } else if a < i {
            assert(s.remove(i)[a] == s[a] && s.remove(i)[b] == s[b + 1]);
        } else {
            assert(s.remove(i)[a] == s[a + 1] && s.remove(i)[b] == s[b + 1]);
        }
    }
    if i == s.len() - 1 {
        assert(s.remove(i) =~= s.drop_last());
        lemma_alist_contains(s.drop_last(), s[i].0);
        assert forall|j: int| 0 <= j < s.drop_last().len() implies (#[trigger] s.drop_last()[j]).0
            != s[i].0 by {
            assert(s[j].0 != s[i].0);
        }
        assert(!alist_map(s.drop_last()).contains_key(s[i].0));
        assert(alist_map(s.remove(i)) =~= alist_map(s).remove(s[i].0));
    } else {
        lemma_alist_remove(s.drop_last(), i);
        assert(s.remove(i).drop_last() =~= s.drop_last().remove(i));
        assert(s.remove(i).last() == s.last());
        assert(alist_map(s.remove(i)) =~= alist_map(s).remove(s[i].0));
    }
}

/// Inserting an entry with a fresh key, at any position, denotes inserting
/// it into the map.
pub proof fn lemma_alist_insert_at<K, V>(s: Seq<(K, V)>, i: int, p: (K, V))
    requires
        0 <= i <= s.len(),
        forall|j: int| 0 <= j < s.len() ==> (#[trigger] s[j]).0 != p.0,
    ensures
        alist_map(s.insert(i, p)) == alist_map(s).insert(p.0, p.1),
    decreases s.len(),
{
    if i == s.len() {
        assert(s.insert(i, p) =~= s.push(p));
        lemma_alist_push(s, p);
    } else {
        let t = s.insert(i, p);
        assert(t.last() == s.last());
        assert(t.drop_last() =~= s.drop_last().insert(i, p));
        lemma_alist_insert_at(s.drop_last(), i, p);
        assert(alist_map(t) =~= alist_map(s).insert(p.0, p.1));
    }
}

/// Appending a fresh element to a duplicate-free sequence keeps it
/// duplicate-free and denotes inserting into the element set.
pub proof fn lemma_push_to_set<T>(s: Seq<T>, x: T)
    requires
        s.no_duplicates(),
        !s.contains(x),
    ensures
        s.push(x).no_duplicates(),
        s.push(x).to_set() == s.to_set().insert(x),
{
    assert forall|y: T| s.push(x).to_set().contains(y) implies s.to_set().insert(x).contains(
        y,
    ) by {
        let i = choose|i: int| 0 <= i < s.push(x).len() && s.push(x)[i] == y;
        if i < s.len() {
            assert(s[i] == y);
        }
    }
    assert forall|y: T| s.to_set().insert(x).contains(y) implies s.push(x).to_set().contains(
        y,
    ) by {
        if y == x {
            assert(s.push(x)[s.len() as int] == y);
        } else {
            let i = choose|i: int| 0 <= i < s.len() && s[i] == y;
            assert(s.push(x)[i] == y);
        }
    }
    assert(s.push(x).to_set() =~= s.to_set().insert(x));
}

/// Removing one occurrence from a duplicate-free sequence keeps it
/// duplicate-free and denotes removing the element from the set.
pub proof fn lemma_remove_to_set<T>(s: Seq<T>, i: int)
    requires
        s.no_duplicates(),
        0 <= i < s.len(),
    ensures
        s.remove(i).no_duplicates(),
        s.remove(i).to_set() == s.to_set().remove(s[i]),
{
    let x = s[i];
    let t = s.remove(i);
    assert forall|a: int, b: int| 0 <= a < b < t.len() implies t[a] != t[b] by {
        if b < i {
            assert(t[a] == s[a] && t[b] == s[b]);
        } else if a < i {
            assert(t[a] == s[a] && t[b] == s[b + 1]);
        } else {
            assert(t[a] == s[a + 1] && t[b] == s[b + 1]);
        }
    }
    assert forall|y: T| t.to_set().contains(y) implies s.to_set().remove(x).contains(y) by {
        let a = choose|a: int| 0 <= a < t.len() && t[a] == y;
        if a < i {
            assert(s[a] == y);
            assert(y != x);
        } else {
            assert(s[a + 1] == y);
            assert(y != x);
        }
    }
    assert forall|y: T| s.to_set().remove(x).contains(y) implies t.to_set().contains(y) by {
        let a = choose|a: int| 0 <= a < s.len() && s[a] == y;
        if a < i {
            assert(t[a] == y);
        } else {
            assert(a != i);
            assert(t[a - 1] == y);
        }
    }
    assert(t.to_set() =~= s.to_set().remove(x));
}

} // verus!
