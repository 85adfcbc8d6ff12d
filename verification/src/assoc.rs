//! Association lists: a sequence of key-value pairs with no key twice, read
//! as a map.

use vstd::prelude::*;

verus! {

/// No key occurs twice.
pub open spec fn distinct_keys<K, V>(s: Seq<(K, V)>) -> bool {
    forall|i: int, j: int| 0 <= i < j < s.len() ==> (#[trigger] s[i]).0 != (#[trigger] s[j]).0
}

/// Some pair of `s` has the key `key`.
pub open spec fn has_key<K, V>(s: Seq<(K, V)>, key: K) -> bool {
    exists|i: int| 0 <= i < s.len() && (#[trigger] s[i]).0 == key
}

/// The map that the pairs of `s` stand for.
pub open spec fn assoc_map<K, V>(s: Seq<(K, V)>) -> Map<K, V> {
    Map::new(
        |key: K| has_key(s, key),
        |key: K| s[choose|i: int| 0 <= i < s.len() && (#[trigger] s[i]).0 == key].1,
    )
}

/// The pair at position `k` is in the map.
pub proof fn lemma_assoc_at<K, V>(s: Seq<(K, V)>, k: int)
    requires
        distinct_keys(s),
        0 <= k < s.len(),
    ensures
        assoc_map(s).contains_pair(s[k].0, s[k].1),
{
    let key = s[k].0;
    let c = choose|i: int| 0 <= i < s.len() && (#[trigger] s[i]).0 == key;
    if c < k {
        assert(s[c].0 != s[k].0);
    } else if k < c {
        assert(s[k].0 != s[c].0);
    }
}

/// A key that no pair has is not in the map.
pub proof fn lemma_assoc_absent<K, V>(s: Seq<(K, V)>, key: K)
    requires
        forall|i: int| 0 <= i < s.len() ==> (#[trigger] s[i]).0 != key,
    ensures
        !assoc_map(s).dom().contains(key),
{
    if has_key(s, key) {
        let i = choose|i: int| 0 <= i < s.len() && (#[trigger] s[i]).0 == key;
        assert(s[i].0 != key);
    }
}

/// Inserting a pair with a new key at position `k` inserts it into the map.
pub proof fn lemma_assoc_insert<K, V>(s: Seq<(K, V)>, k: int, key: K, value: V)
    requires
        distinct_keys(s),
        0 <= k <= s.len(),
        forall|i: int| 0 <= i < s.len() ==> (#[trigger] s[i]).0 != key,
    ensures
        distinct_keys(s.insert(k, (key, value))),
        assoc_map(s.insert(k, (key, value))) == assoc_map(s).insert(key, value),
{
    let t = s.insert(k, (key, value));
    assert forall|i: int, j: int| 0 <= i < j < t.len() implies
        (#[trigger] t[i]).0 != (#[trigger] t[j]).0 by {
        let a = if i < k { s[i] } else if i == k { (key, value) } else { s[i - 1] };
        let b = if j < k { s[j] } else if j == k { (key, value) } else { s[j - 1] };
        assert(t[i] == a);
        assert(t[j] == b);
    }
    let lhs = assoc_map(t);
    let rhs = assoc_map(s).insert(key, value);
    assert forall|q: K| lhs.dom().contains(q) <==> rhs.dom().contains(q) by {
        if lhs.dom().contains(q) {
            let i = choose|i: int| 0 <= i < t.len() && (#[trigger] t[i]).0 == q;
            if i < k {
                assert(s[i] == t[i]);
            } else if i > k {
                assert(s[i - 1] == t[i]);
            }
        }
        if rhs.dom().contains(q) {
            if q == key {
                assert(t[k].0 == q);
            } else {
                let i = choose|i: int| 0 <= i < s.len() && (#[trigger] s[i]).0 == q;
                if i < k {
                    assert(t[i] == s[i]);
                } else {
                    assert(t[i + 1] == s[i]);
                }
            }
        }
    }
    assert forall|q: K| lhs.dom().contains(q) implies lhs[q] == rhs[q] by {
        let i = choose|i: int| 0 <= i < t.len() && (#[trigger] t[i]).0 == q;
        lemma_assoc_at(t, i);
        if i < k {
            assert(s[i] == t[i]);
            lemma_assoc_at(s, i);
        } else if i > k {
            assert(s[i - 1] == t[i]);
            lemma_assoc_at(s, i - 1);
        }
    }
    assert(lhs =~= rhs);
}

/// Replacing the value at position `k` replaces it in the map.
pub proof fn lemma_assoc_update<K, V>(s: Seq<(K, V)>, k: int, value: V)
    requires
        distinct_keys(s),
        0 <= k < s.len(),
    ensures
        distinct_keys(s.update(k, (s[k].0, value))),
        assoc_map(s.update(k, (s[k].0, value))) == assoc_map(s).insert(s[k].0, value),
{
    let key = s[k].0;
    let t = s.update(k, (key, value));
    assert forall|i: int, j: int| 0 <= i < j < t.len() implies
        (#[trigger] t[i]).0 != (#[trigger] t[j]).0 by {
        assert(t[i].0 == s[i].0);
        assert(t[j].0 == s[j].0);
    }
    let lhs = assoc_map(t);
    let rhs = assoc_map(s).insert(key, value);
    assert forall|q: K| lhs.dom().contains(q) <==> rhs.dom().contains(q) by {
        if lhs.dom().contains(q) {
            let i = choose|i: int| 0 <= i < t.len() && (#[trigger] t[i]).0 == q;
            assert(s[i].0 == t[i].0);
        }
        if rhs.dom().contains(q) {
            if q == key {
                assert(t[k].0 == q);
            } else {
                let i = choose|i: int| 0 <= i < s.len() && (#[trigger] s[i]).0 == q;
                assert(t[i].0 == s[i].0);
            }
        }
    }
    assert forall|q: K| lhs.dom().contains(q) implies lhs[q] == rhs[q] by {
        let i = choose|i: int| 0 <= i < t.len() && (#[trigger] t[i]).0 == q;
        lemma_assoc_at(t, i);
        if i != k {
            assert(s[i] == t[i]);
            lemma_assoc_at(s, i);
        }
    }
    assert(lhs =~= rhs);
}

/// Removing the pair at position `k` removes its key from the map.
pub proof fn lemma_assoc_remove<K, V>(s: Seq<(K, V)>, k: int)
    requires
        distinct_keys(s),
        0 <= k < s.len(),
    ensures
        distinct_keys(s.remove(k)),
        assoc_map(s.remove(k)) == assoc_map(s).remove(s[k].0),
{
    let key = s[k].0;
    let t = s.remove(k);
    assert forall|i: int, j: int| 0 <= i < j < t.len() implies
        (#[trigger] t[i]).0 != (#[trigger] t[j]).0 by {
        let a = if i < k { s[i] } else { s[i + 1] };
        let b = if j < k { s[j] } else { s[j + 1] };
        assert(t[i] == a);
        assert(t[j] == b);
    }
    let lhs = assoc_map(t);
    let rhs = assoc_map(s).remove(key);
    assert forall|q: K| lhs.dom().contains(q) <==> rhs.dom().contains(q) by {
        if lhs.dom().contains(q) {
            let i = choose|i: int| 0 <= i < t.len() && (#[trigger] t[i]).0 == q;
            if i < k {
                assert(s[i] == t[i]);
                assert(s[i].0 != s[k].0);
            } else {
                assert(s[i + 1] == t[i]);
                assert(s[k].0 != s[i + 1].0);
            }
        }
        if rhs.dom().contains(q) {
            let i = choose|i: int| 0 <= i < s.len() && (#[trigger] s[i]).0 == q;
            if i < k {
                assert(t[i] == s[i]);
            } else {
                assert(t[i - 1] == s[i]);
            }
        }
    }
    assert forall|q: K| lhs.dom().contains(q) implies lhs[q] == rhs[q] by {
        let i = choose|i: int| 0 <= i < t.len() && (#[trigger] t[i]).0 == q;
        lemma_assoc_at(t, i);
        if i < k {
            assert(s[i] == t[i]);
            lemma_assoc_at(s, i);
        } else {
            assert(s[i + 1] == t[i]);
            lemma_assoc_at(s, i + 1);
        }
    }
    assert(lhs =~= rhs);
}

/// The map has as many keys as the list has pairs.
pub proof fn lemma_assoc_len<K, V>(s: Seq<(K, V)>)
    requires
        distinct_keys(s),
    ensures
        assoc_map(s).dom().finite(),
        assoc_map(s).dom().len() == s.len(),
    decreases s.len(),
{
    if s.len() == 0 {
        assert(assoc_map(s).dom() =~= Set::<K>::empty());
    } else {
        let k = s.len() - 1;
        let t = s.remove(k);
        lemma_assoc_remove(s, k);
        lemma_assoc_len(t);
        lemma_assoc_at(s, k);
        assert(assoc_map(s).dom() =~= assoc_map(t).dom().insert(s[k].0));
    }
}

} // verus!
