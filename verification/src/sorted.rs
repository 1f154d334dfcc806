//! Sequences kept in ascending order, and the maps and sets that they stand
//! for.

use vstd::prelude::*;

verus! {

/// `s` is in strictly ascending order by `lt`.
pub open spec fn ascending<K>(s: Seq<K>, lt: spec_fn(K, K) -> bool) -> bool {
    forall|i: int, j: int| 0 <= i < j < s.len() ==> lt(#[trigger] s[i], #[trigger] s[j])
}

/// `lt` is a strict order: nothing comes before itself, and it is transitive.
pub open spec fn strict_order<K>(lt: spec_fn(K, K) -> bool) -> bool {
    &&& forall|a: K| !#[trigger] lt(a, a)
    &&& forall|a: K, b: K, c: K| #[trigger] lt(a, b) && #[trigger] lt(b, c) ==> lt(a, c)
}

/// `k` may be inserted at position `p` of `s`: what stands before comes
/// before `k`, what stands from `p` on comes after it.
pub open spec fn fits_at<K>(s: Seq<K>, lt: spec_fn(K, K) -> bool, p: int, k: K) -> bool {
    &&& 0 <= p <= s.len()
    &&& forall|i: int| 0 <= i < p ==> lt(#[trigger] s[i], k)
    &&& forall|i: int| p <= i < s.len() ==> lt(k, #[trigger] s[i])
}

/// The map from each key of `keys` to the value at the same position of
/// `vals`.
pub open spec fn assoc_map<K, V>(keys: Seq<K>, vals: Seq<V>) -> Map<K, V> {
    Map::new(|k: K| keys.contains(k), |k: K| vals[keys.index_of(k)])
}

/// An ascending sequence holds nothing twice.
pub proof fn lemma_ascending_no_duplicates<K>(s: Seq<K>, lt: spec_fn(K, K) -> bool)
    requires
        ascending(s, lt),
        strict_order(lt),
    ensures
        s.no_duplicates(),
{
    assert forall|i: int, j: int| 0 <= i < s.len() && 0 <= j < s.len() && i != j implies s[i]
        != s[j] by {
        if i < j {
            assert(lt(s[i], s[j]));
        } else {
            assert(lt(s[j], s[i]));
        }
    }
}

/// In a sequence that holds nothing twice, a key is found where it stands.
pub proof fn lemma_index_of_unique<K>(s: Seq<K>, j: int)
    requires
        s.no_duplicates(),
        0 <= j < s.len(),
    ensures
        s.index_of(s[j]) == j,
        s.contains(s[j]),
{
    let i = s.index_of(s[j]);
    assert(s.contains(s[j]));
    assert(0 <= i < s.len() && s[i] == s[j]);
}

/// A key that fits at `p` is not in the sequence yet.
pub proof fn lemma_fits_not_contained<K>(s: Seq<K>, lt: spec_fn(K, K) -> bool, p: int, k: K)
    requires
        strict_order(lt),
        fits_at(s, lt, p, k),
    ensures
        !s.contains(k),
{
    if s.contains(k) {
        let i = s.index_of(k);
        if i < p {
            assert(lt(s[i], k));
        } else {
            assert(lt(k, s[i]));
        }
    }
}

/// Inserting a key where it fits keeps the order and adds the key to what
/// the sequence holds.
pub proof fn lemma_insert_ascending<K>(s: Seq<K>, lt: spec_fn(K, K) -> bool, p: int, k: K)
    requires
        ascending(s, lt),
        strict_order(lt),
        fits_at(s, lt, p, k),
    ensures
        ascending(s.insert(p, k), lt),
        s.insert(p, k).to_set() == s.to_set().insert(k),
{
    let t = s.insert(p, k);
    assert forall|i: int, j: int| 0 <= i < j < t.len() implies lt(
        #[trigger] t[i],
        #[trigger] t[j],
    ) by {
        if j < p {
            assert(lt(s[i], s[j]));
        } else if j == p {
            assert(lt(s[i], k));
        } else if i < p {
            assert(lt(s[i], s[j - 1]));
        } else if i == p {
            assert(lt(k, s[j - 1]));
        } else {
            assert(lt(s[i - 1], s[j - 1]));
        }
    }
    assert forall|x: K| t.to_set().contains(x) == s.to_set().insert(k).contains(x) by {
        if t.contains(x) {
            let i = t.index_of(x);
            if i < p {
                assert(s[i] == x);
                assert(s.contains(x));
            } else if i > p {
                assert(s[i - 1] == x);
                assert(s.contains(x));
            }
        }
        if s.contains(x) {
            let i = s.index_of(x);
            if i < p {
                assert(t[i] == x);
            } else {
                assert(t[i + 1] == x);
            }
            assert(t.contains(x));
        }
        if x == k {
            assert(t[p] == x);
            assert(t.contains(x));
        }
    }
    assert(t.to_set() =~= s.to_set().insert(k));
}

/// Removing a position keeps the order and takes the key that stood there
/// out of what the sequence holds.
pub proof fn lemma_remove_ascending<K>(s: Seq<K>, lt: spec_fn(K, K) -> bool, p: int)
    requires
        ascending(s, lt),
        strict_order(lt),
        0 <= p < s.len(),
    ensures
        ascending(s.remove(p), lt),
        s.remove(p).to_set() == s.to_set().remove(s[p]),
{
    let t = s.remove(p);
    lemma_ascending_no_duplicates(s, lt);
    assert forall|i: int, j: int| 0 <= i < j < t.len() implies lt(
        #[trigger] t[i],
        #[trigger] t[j],
    ) by {
        let i0 = if i < p {
            i
        } else {
            i + 1
        };
        let j0 = if j < p {
            j
        } else {
            j + 1
        };
        assert(lt(s[i0], s[j0]));
    }
    assert forall|x: K| t.to_set().contains(x) == s.to_set().remove(s[p]).contains(x) by {
        if t.contains(x) {
            let i = t.index_of(x);
            let i0 = if i < p {
                i
            } else {
                i + 1
            };
            assert(s[i0] == x);
            assert(s.contains(x));
        }
        if s.contains(x) && x != s[p] {
            let i = s.index_of(x);
            if i < p {
                assert(t[i] == x);
            } else {
                assert(t[i - 1] == x);
            }
            assert(t.contains(x));
        }
    }
    assert(t.to_set() =~= s.to_set().remove(s[p]));
}

/// The keys of the map are what the key sequence holds.
pub proof fn lemma_assoc_dom<K, V>(keys: Seq<K>, vals: Seq<V>)
    ensures
        assoc_map(keys, vals).dom() == keys.to_set(),
{
    assert(assoc_map(keys, vals).dom() =~= keys.to_set());
}

/// The value under the key at position `j` is the value at position `j`.
pub proof fn lemma_assoc_at<K, V>(keys: Seq<K>, vals: Seq<V>, j: int)
    requires
        keys.no_duplicates(),
        0 <= j < keys.len(),
    ensures
        assoc_map(keys, vals).dom().contains(keys[j]),
        assoc_map(keys, vals)[keys[j]] == vals[j],
{
    lemma_index_of_unique(keys, j);
}

/// Inserting a new key and its value at the same position adds the pair to
/// the map.
pub proof fn lemma_assoc_insert<K, V>(keys: Seq<K>, vals: Seq<V>, p: int, k: K, v: V)
    requires
        keys.no_duplicates(),
        keys.insert(p, k).no_duplicates(),
        keys.len() == vals.len(),
        0 <= p <= keys.len(),
    ensures
        assoc_map(keys.insert(p, k), vals.insert(p, v)) == assoc_map(keys, vals).insert(k, v),
{
    let keys2 = keys.insert(p, k);
    let vals2 = vals.insert(p, v);
    let m = assoc_map(keys, vals).insert(k, v);
    let m2 = assoc_map(keys2, vals2);
    assert forall|x: K| m2.dom().contains(x) == m.dom().contains(x) by {
        if keys2.contains(x) {
            let i = keys2.index_of(x);
            if i < p {
                assert(keys[i] == x);
                assert(keys.contains(x));
            } else if i > p {
                assert(keys[i - 1] == x);
                assert(keys.contains(x));
            }
        }
        if keys.contains(x) {
            let i = keys.index_of(x);
            if i < p {
                assert(keys2[i] == x);
            } else {
                assert(keys2[i + 1] == x);
            }
            assert(keys2.contains(x));
        }
        if x == k {
            assert(keys2[p] == x);
            assert(keys2.contains(x));
        }
    }
    assert forall|x: K| m2.dom().contains(x) implies m2[x] == m[x] by {
        let i = keys2.index_of(x);
        if i == p {
        } else {
            let i0 = if i < p {
                i
            } else {
                i - 1
            };
            assert(keys[i0] == x);
            lemma_index_of_unique(keys, i0);
            assert(keys2[p] == k);
        }
    }
    assert(m2 =~= m);
}

/// Replacing the value at position `p` replaces the value under the key at
/// `p`.
pub proof fn lemma_assoc_update<K, V>(keys: Seq<K>, vals: Seq<V>, p: int, v: V)
    requires
        keys.no_duplicates(),
        keys.len() == vals.len(),
        0 <= p < keys.len(),
    ensures
        assoc_map(keys, vals.update(p, v)) == assoc_map(keys, vals).insert(keys[p], v),
{
    let m = assoc_map(keys, vals).insert(keys[p], v);
    let m2 = assoc_map(keys, vals.update(p, v));
    lemma_index_of_unique(keys, p);
    assert forall|x: K| m2.dom().contains(x) implies m2[x] == m[x] by {
        let i = keys.index_of(x);
        if i == p {
        }
    }
    assert(m2 =~= m);
}

/// Removing a position from keys and values removes the key from the map.
pub proof fn lemma_assoc_remove<K, V>(keys: Seq<K>, vals: Seq<V>, p: int)
    requires
        keys.no_duplicates(),
        keys.len() == vals.len(),
        0 <= p < keys.len(),
    ensures
        assoc_map(keys.remove(p), vals.remove(p)) == assoc_map(keys, vals).remove(keys[p]),
{
    let keys2 = keys.remove(p);
    let vals2 = vals.remove(p);
    let m = assoc_map(keys, vals).remove(keys[p]);
    let m2 = assoc_map(keys2, vals2);
    assert(keys2.no_duplicates()) by {
        assert forall|i: int, j: int|
            0 <= i < keys2.len() && 0 <= j < keys2.len() && i != j implies keys2[i]
            != keys2[j] by {
            let i0 = if i < p {
                i
            } else {
                i + 1
            };
            let j0 = if j < p {
                j
            } else {
                j + 1
            };
            assert(keys[i0] != keys[j0]);
        }
    }
    assert forall|x: K| m2.dom().contains(x) == m.dom().contains(x) by {
        if keys2.contains(x) {
            let i = keys2.index_of(x);
            let i0 = if i < p {
                i
            } else {
                i + 1
            };
            assert(keys[i0] == x);
            assert(keys.contains(x));
        }
        if keys.contains(x) && x != keys[p] {
            let i = keys.index_of(x);
            if i < p {
                assert(keys2[i] == x);
            } else {
                assert(keys2[i - 1] == x);
            }
            assert(keys2.contains(x));
        }
    }
    assert forall|x: K| m2.dom().contains(x) implies m2[x] == m[x] by {
        let i = keys2.index_of(x);
        let i0 = if i < p {
            i
        } else {
            i + 1
        };
        assert(keys[i0] == x);
        lemma_index_of_unique(keys, i0);
    }
    assert(m2 =~= m);
}

} // verus!
