//! Association sequences as finite maps.
//!
//! The in-memory backend stores each table as a sequence of records with
//! pairwise-distinct keys. This module gives such a sequence its mathematical
//! reading — the map from each record's key to its value — and proves how that
//! map changes under the two operations the backend uses: appending a record
//! with a fresh key, and removing one record by `swap_remove`.

use vstd::prelude::*;

verus! {

/// The keys of the records of `s` are pairwise distinct.
pub open spec fn keys_unique<R, K>(s: Seq<R>, key: spec_fn(R) -> K) -> bool {
    forall|i: int, j: int|
        0 <= i < s.len() && 0 <= j < s.len() && i != j ==> key(s[i]) != key(s[j])
}

/// Some record of `s` has key `k`.
pub open spec fn has_key<R, K>(s: Seq<R>, key: spec_fn(R) -> K, k: K) -> bool {
    exists|i: int| 0 <= i < s.len() && key(s[i]) == k
}

/// An index of a record of `s` with key `k`; meaningful only when one exists.
pub open spec fn index_of_key<R, K>(s: Seq<R>, key: spec_fn(R) -> K, k: K) -> int {
    choose|i: int| 0 <= i < s.len() && key(s[i]) == k
}

/// The map reading of the association sequence `s`.
pub open spec fn map_of<R, K, V>(s: Seq<R>, key: spec_fn(R) -> K, val: spec_fn(R) -> V) -> Map<K, V> {
    Map::new(
        |k: K| has_key(s, key, k),
        |k: K| val(s[index_of_key(s, key, k)]),
    )
}

/// With distinct keys, the map reads each record of `s` exactly.
pub proof fn lemma_map_of_index<R, K, V>(s: Seq<R>, key: spec_fn(R) -> K, val: spec_fn(R) -> V, i: int)
    requires
        keys_unique(s, key),
        0 <= i < s.len(),
    ensures
        map_of(s, key, val).contains_key(key(s[i])),
        map_of(s, key, val)[key(s[i])] == val(s[i]),
{
    let k = key(s[i]);
    assert(has_key(s, key, k));
    let j = index_of_key(s, key, k);
    assert(0 <= j < s.len() && key(s[j]) == k);
    assert(j == i);
}

/// Appending a record whose key is fresh inserts its reading into the map.
pub proof fn lemma_map_of_push<R, K, V>(s: Seq<R>, key: spec_fn(R) -> K, val: spec_fn(R) -> V, r: R)
    requires
        keys_unique(s, key),
        !has_key(s, key, key(r)),
    ensures
        keys_unique(s.push(r), key),
        map_of(s.push(r), key, val) == map_of(s, key, val).insert(key(r), val(r)),
{
    let s2 = s.push(r);
    assert forall|i: int, j: int|
        0 <= i < s2.len() && 0 <= j < s2.len() && i != j implies key(s2[i]) != key(s2[j]) by {
        if i < s.len() && j < s.len() {
            assert(s2[i] == s[i] && s2[j] == s[j]);
        } else if i < s.len() {
            assert(s2[i] == s[i] && s2[j] == r);
            if key(s[i]) == key(r) {
                assert(has_key(s, key, key(r)));
            }
        } else {
            assert(s2[i] == r && s2[j] == s[j]);
            if key(s[j]) == key(r) {
                assert(has_key(s, key, key(r)));
            }
        }
    }
    let m1 = map_of(s2, key, val);
    let m2 = map_of(s, key, val).insert(key(r), val(r));
    assert forall|k: K| m1.contains_key(k) implies m2.contains_key(k) && m1[k] == m2[k] by {
        let i = index_of_key(s2, key, k);
        assert(0 <= i < s2.len() && key(s2[i]) == k);
        if i == s.len() {
            assert(s2[i] == r);
            assert(m1[k] == val(r));
        } else {
            assert(s2[i] == s[i]);
            assert(k != key(r)) by {
                if k == key(r) {
                    assert(has_key(s, key, key(r)));
                }
            }
            assert(has_key(s, key, k));
            let j = index_of_key(s, key, k);
            assert(0 <= j < s.len() && key(s[j]) == k);
            assert(j == i);
            assert(m2[k] == val(s[i]));
        }
    }
    assert forall|k: K| m2.contains_key(k) implies m1.contains_key(k) by {
        if k == key(r) {
            let i = s.len() as int;
            assert(key(s2[i]) == k);
        } else {
            let j = index_of_key(s, key, k);
            assert(0 <= j < s.len() && key(s[j]) == k);
            assert(key(s2[j]) == k);
        }
    }
    assert(m1 =~= m2);
}

/// Removing the record at `i` by `swap_remove` — writing the last record over
/// it and dropping the last position — removes exactly its key from the map.
pub proof fn lemma_map_of_swap_remove<R, K, V>(s: Seq<R>, key: spec_fn(R) -> K, val: spec_fn(R) -> V, i: int)
    requires
        keys_unique(s, key),
        0 <= i < s.len(),
    ensures
        keys_unique(s.update(i, s.last()).drop_last(), key),
        map_of(s.update(i, s.last()).drop_last(), key, val) == map_of(s, key, val).remove(key(s[i])),
{
    let s2 = s.update(i, s.last()).drop_last();
    assert(s2.len() == s.len() - 1);
    assert forall|p: int| 0 <= p < s2.len() implies s2[p] == (if p == i {
        s.last()
    } else {
        s[p]
    }) by {}
    assert forall|p: int, q: int|
        0 <= p < s2.len() && 0 <= q < s2.len() && p != q implies key(s2[p]) != key(s2[q]) by {
        let p0 = if p == i { s.len() - 1 } else { p };
        let q0 = if q == i { s.len() - 1 } else { q };
        assert(s2[p] == s[p0] && s2[q] == s[q0]);
        assert(p0 != q0);
    }
    let m1 = map_of(s2, key, val);
    let m2 = map_of(s, key, val).remove(key(s[i]));
    assert forall|k: K| m1.contains_key(k) implies m2.contains_key(k) && m1[k] == m2[k] by {
        let p = index_of_key(s2, key, k);
        assert(0 <= p < s2.len() && key(s2[p]) == k);
        let p0 = if p == i { s.len() - 1 } else { p };
        assert(s2[p] == s[p0]);
        assert(key(s[p0]) == k);
        assert(p0 != i);
        assert(k != key(s[i]));
        assert(has_key(s, key, k));
        let j = index_of_key(s, key, k);
        assert(0 <= j < s.len() && key(s[j]) == k);
        assert(j == p0);
        assert(m2[k] == val(s[p0]));
    }
    assert forall|k: K| m2.contains_key(k) implies m1.contains_key(k) by {
        let j = index_of_key(s, key, k);
        assert(0 <= j < s.len() && key(s[j]) == k);
        assert(j != i);
        if j == s.len() - 1 {
            // the last record now sits at position i
            assert(i < s.len() - 1);
            assert(s2[i] == s.last());
            assert(key(s2[i]) == k);
        } else {
            assert(s2[j] == s[j]);
            assert(key(s2[j]) == k);
        }
    }
    assert(m1 =~= m2);
}

} // verus!
