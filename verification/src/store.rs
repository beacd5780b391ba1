//! Keyed sequences: the model shared by every registry in the library.
//!
//! A registry keeps its entries in insertion order with pairwise distinct
//! keys, so it is both a sequence (for listing) and a finite map from keys
//! to entries (for lookup). This module defines the map operations on such
//! sequences and proves that they keep keys distinct.

use vstd::prelude::*;

verus! {

/// No two entries of `s` share a key.
pub open spec fn keys_unique<V, K>(s: Seq<V>, key: spec_fn(V) -> K) -> bool {
    forall|i: int, j: int|
        0 <= i < s.len() && 0 <= j < s.len() && i != j ==> #[trigger] key(s[i]) != #[trigger] key(s[j])
}

/// Some entry of `s` has key `k`.
pub open spec fn has_key<V, K>(s: Seq<V>, key: spec_fn(V) -> K, k: K) -> bool {
    exists|i: int| 0 <= i < s.len() && #[trigger] key(s[i]) == k
}

/// The position of an entry with key `k` (meaningful when there is one).
pub open spec fn key_index<V, K>(s: Seq<V>, key: spec_fn(V) -> K, k: K) -> int {
    choose|i: int| 0 <= i < s.len() && #[trigger] key(s[i]) == k
}

/// The entry with key `k`, if any.
pub open spec fn lookup<V, K>(s: Seq<V>, key: spec_fn(V) -> K, k: K) -> Option<V> {
    if has_key(s, key, k) {
        Some(s[key_index(s, key, k)])
    } else {
        None
    }
}

/// Insert `v`, replacing in place the entry with the same key if there is
/// one, appending it otherwise.
pub open spec fn upsert<V, K>(s: Seq<V>, key: spec_fn(V) -> K, v: V) -> Seq<V> {
    if has_key(s, key, key(v)) {
        s.update(key_index(s, key, key(v)), v)
    } else {
        s.push(v)
    }
}

/// Remove the entry with key `k`, if any, keeping the order of the rest.
pub open spec fn remove_key<V, K>(s: Seq<V>, key: spec_fn(V) -> K, k: K) -> Seq<V> {
    if has_key(s, key, k) {
        s.remove(key_index(s, key, k))
    } else {
        s
    }
}

/// With distinct keys, the position of a key is the one where it occurs.
pub proof fn lemma_key_index<V, K>(s: Seq<V>, key: spec_fn(V) -> K, i: int)
    requires
        keys_unique(s, key),
        0 <= i < s.len(),
    ensures
        has_key(s, key, key(s[i])),
        key_index(s, key, key(s[i])) == i,
        lookup(s, key, key(s[i])) == Some(s[i]),
{
    let k = key(s[i]);
    assert(has_key(s, key, k));
    let j = key_index(s, key, k);
    assert(key(s[j]) == k);
}

/// Upserting keeps keys distinct; afterwards the inserted key maps to the
/// new entry and every other key maps to what it mapped to before.
pub proof fn lemma_upsert<V, K>(s: Seq<V>, key: spec_fn(V) -> K, v: V)
    requires
        keys_unique(s, key),
    ensures
        keys_unique(upsert(s, key, v), key),
        lookup(upsert(s, key, v), key, key(v)) == Some(v),
        forall|k: K| k != key(v) ==> #[trigger] lookup(upsert(s, key, v), key, k) == lookup(s, key, k),
        forall|k: K| #[trigger] has_key(upsert(s, key, v), key, k) <==> (k == key(v) || has_key(s, key, k)),
{
    let t = upsert(s, key, v);
    if has_key(s, key, key(v)) {
        let p = key_index(s, key, key(v));
        assert(key(s[p]) == key(v));
        assert(t.len() == s.len());
        assert forall|i: int, j: int|
            0 <= i < t.len() && 0 <= j < t.len() && i != j implies #[trigger] key(t[i]) != #[trigger] key(t[j]) by {
            if i == p {
                assert(key(s[j]) != key(s[p]));
            } else if j == p {
                assert(key(s[i]) != key(s[p]));
            } else {
                assert(key(s[i]) != key(s[j]));
            }
        }
        lemma_key_index(t, key, p);
        assert forall|k: K| k != key(v) implies #[trigger] lookup(t, key, k) == lookup(s, key, k) by {
            if has_key(s, key, k) {
                let q = key_index(s, key, k);
                assert(q != p);
                assert(t[q] == s[q]);
                lemma_key_index(t, key, q);
                lemma_key_index(s, key, q);
            } else {
                if has_key(t, key, k) {
                    let q = key_index(t, key, k);
                    assert(q != p);
                    assert(key(s[q]) == k);
                }
            }
        }
        assert forall|k: K| #[trigger] has_key(t, key, k) <==> (k == key(v) || has_key(s, key, k)) by {
            if has_key(s, key, k) && k != key(v) {
                let q = key_index(s, key, k);
                assert(t[q] == s[q]);
            }
            if has_key(t, key, k) && k != key(v) {
                let q = key_index(t, key, k);
                assert(q != p);
                assert(key(s[q]) == k);
            }
            if k == key(v) {
                assert(key(t[p]) == k);
            }
        }
    } else {
        assert(t == s.push(v));
        assert forall|i: int, j: int|
            0 <= i < t.len() && 0 <= j < t.len() && i != j implies #[trigger] key(t[i]) != #[trigger] key(t[j]) by {
            if i == s.len() {
                assert(key(t[j]) == key(s[j]));
            } else if j == s.len() {
                assert(key(t[i]) == key(s[i]));
            } else {
                assert(key(s[i]) != key(s[j]));
            }
        }
        lemma_key_index(t, key, s.len() as int);
        assert forall|k: K| k != key(v) implies #[trigger] lookup(t, key, k) == lookup(s, key, k) by {
            if has_key(s, key, k) {
                let q = key_index(s, key, k);
                assert(t[q] == s[q]);
                lemma_key_index(t, key, q);
                lemma_key_index(s, key, q);
            } else {
                if has_key(t, key, k) {
                    let q = key_index(t, key, k);
                    assert(q != s.len());
                    assert(key(s[q]) == k);
                }
            }
        }
        assert forall|k: K| #[trigger] has_key(t, key, k) <==> (k == key(v) || has_key(s, key, k)) by {
            if has_key(s, key, k) {
                let q = key_index(s, key, k);
                assert(t[q] == s[q]);
            }
            if has_key(t, key, k) && k != key(v) {
                let q = key_index(t, key, k);
                assert(q != s.len());
                assert(key(s[q]) == k);
            }
            if k == key(v) {
                assert(key(t[s.len() as int]) == k);
            }
        }
    }
}

/// Removing a key keeps keys distinct; afterwards the key is absent and
/// every other key maps to what it mapped to before.
pub proof fn lemma_remove_key<V, K>(s: Seq<V>, key: spec_fn(V) -> K, k: K)
    requires
        keys_unique(s, key),
    ensures
        keys_unique(remove_key(s, key, k), key),
        !has_key(remove_key(s, key, k), key, k),
        lookup(remove_key(s, key, k), key, k) is None,
        forall|k2: K| k2 != k ==> #[trigger] lookup(remove_key(s, key, k), key, k2) == lookup(s, key, k2),
        forall|k2: K| #[trigger] has_key(remove_key(s, key, k), key, k2) <==> (k2 != k && has_key(s, key, k2)),
{
    let t = remove_key(s, key, k);
    if has_key(s, key, k) {
        let p = key_index(s, key, k);
        assert(key(s[p]) == k);
        assert(t.len() == s.len() - 1);
        assert forall|i: int| 0 <= i < t.len() implies #[trigger] t[i] == (if i < p { s[i] } else { s[i + 1] }) by {
        }
        assert forall|i: int, j: int|
            0 <= i < t.len() && 0 <= j < t.len() && i != j implies #[trigger] key(t[i]) != #[trigger] key(t[j]) by {
            let si = if i < p { i } else { i + 1 };
            let sj = if j < p { j } else { j + 1 };
            assert(t[i] == s[si]);
            assert(t[j] == s[sj]);
            assert(key(s[si]) != key(s[sj]));
        }
        assert(!has_key(t, key, k)) by {
            if has_key(t, key, k) {
                let q = key_index(t, key, k);
                let sq = if q < p { q } else { q + 1 };
                assert(t[q] == s[sq]);
                assert(key(s[sq]) != key(s[p]));
            }
        }
        assert forall|k2: K| #[trigger] has_key(t, key, k2) <==> (k2 != k && has_key(s, key, k2)) by {
            if has_key(t, key, k2) {
                let q = key_index(t, key, k2);
                let sq = if q < p { q } else { q + 1 };
                assert(t[q] == s[sq]);
                assert(key(s[sq]) == k2);
            }
            if k2 != k && has_key(s, key, k2) {
                let q = key_index(s, key, k2);
                assert(q != p);
                let tq = if q < p { q } else { q - 1 };
                assert(t[tq] == s[q]);
            }
        }
        assert forall|k2: K| k2 != k implies #[trigger] lookup(t, key, k2) == lookup(s, key, k2) by {
            if has_key(s, key, k2) {
                let q = key_index(s, key, k2);
                assert(q != p);
                let tq = if q < p { q } else { q - 1 };
                assert(t[tq] == s[q]);
                lemma_key_index(t, key, tq);
                lemma_key_index(s, key, q);
            }
        }
    }
}

/// Upserting under one key keeps a second key distinct, provided the new
/// entry's second key is not in use; afterwards that second key finds the
/// new entry.
pub proof fn lemma_upsert_second_key<V, K, N>(s: Seq<V>, key: spec_fn(V) -> K, key2: spec_fn(V) -> N, v: V)
    requires
        keys_unique(s, key),
        keys_unique(s, key2),
        !has_key(s, key2, key2(v)),
    ensures
        keys_unique(upsert(s, key, v), key2),
        lookup(upsert(s, key, v), key2, key2(v)) == Some(v),
        forall|n: N| n != key2(v) && #[trigger] has_key(upsert(s, key, v), key2, n) ==> has_key(s, key2, n),
{
    let t = upsert(s, key, v);
    let p = if has_key(s, key, key(v)) { key_index(s, key, key(v)) } else { s.len() as int };
    if has_key(s, key, key(v)) {
        assert(key(s[p]) == key(v));
    }
    assert(t.len() == (if p == s.len() { s.len() + 1 } else { s.len() + 0 }));
    assert(t[p] == v);
    assert forall|i: int| 0 <= i < t.len() && i != p implies #[trigger] t[i] == s[i] by {
    }
    assert forall|i: int, j: int|
        0 <= i < t.len() && 0 <= j < t.len() && i != j implies #[trigger] key2(t[i]) != #[trigger] key2(t[j]) by {
        if i == p {
            assert(t[j] == s[j]);
            assert(key2(s[j]) != key2(v)) by {
                if key2(s[j]) == key2(v) {
                    assert(has_key(s, key2, key2(v)));
                }
            }
        } else if j == p {
            assert(t[i] == s[i]);
            assert(key2(s[i]) != key2(v)) by {
                if key2(s[i]) == key2(v) {
                    assert(has_key(s, key2, key2(v)));
                }
            }
        } else {
            assert(t[i] == s[i]);
            assert(t[j] == s[j]);
        }
    }
    lemma_key_index(t, key2, p);
    assert forall|n: N| n != key2(v) && #[trigger] has_key(t, key2, n) implies has_key(s, key2, n) by {
        let q = key_index(t, key2, n);
        assert(q != p);
        assert(t[q] == s[q]);
        assert(key2(s[q]) == n);
    }
}

/// Removing the entry with one key keeps a second key distinct; a second
/// key in use afterwards was in use before, and the removed entry's second
/// key is no longer in use.
pub proof fn lemma_remove_second_key<V, K, N>(s: Seq<V>, key: spec_fn(V) -> K, key2: spec_fn(V) -> N, k: K)
    requires
        keys_unique(s, key),
        keys_unique(s, key2),
    ensures
        keys_unique(remove_key(s, key, k), key2),
        forall|n: N| #[trigger] has_key(remove_key(s, key, k), key2, n) ==> has_key(s, key2, n),
        has_key(s, key, k) ==> !has_key(remove_key(s, key, k), key2, key2(s[key_index(s, key, k)])),
{
    let t = remove_key(s, key, k);
    if has_key(s, key, k) {
        let p = key_index(s, key, k);
        assert(key(s[p]) == k);
        assert forall|i: int| 0 <= i < t.len() implies #[trigger] t[i] == (if i < p { s[i] } else { s[i + 1] }) by {
        }
        assert forall|i: int, j: int|
            0 <= i < t.len() && 0 <= j < t.len() && i != j implies #[trigger] key2(t[i]) != #[trigger] key2(t[j]) by {
            let si = if i < p { i } else { i + 1 };
            let sj = if j < p { j } else { j + 1 };
            assert(t[i] == s[si]);
            assert(t[j] == s[sj]);
        }
        assert forall|n: N| #[trigger] has_key(t, key2, n) implies has_key(s, key2, n) by {
            let q = key_index(t, key2, n);
            let sq = if q < p { q } else { q + 1 };
            assert(t[q] == s[sq]);
            assert(key2(s[sq]) == n);
        }
        assert(!has_key(t, key2, key2(s[p]))) by {
            if has_key(t, key2, key2(s[p])) {
                let q = key_index(t, key2, key2(s[p]));
                let sq = if q < p { q } else { q + 1 };
                assert(t[q] == s[sq]);
                assert(sq != p);
            }
        }
    }
}

/// Inserting an entry under a fresh key and then removing that key gives
/// back the sequence it started from.
pub proof fn lemma_remove_undoes_fresh_upsert<V, K>(s: Seq<V>, key: spec_fn(V) -> K, v: V)
    requires
        keys_unique(s, key),
        !has_key(s, key, key(v)),
    ensures
        remove_key(upsert(s, key, v), key, key(v)) == s,
{
    let t = upsert(s, key, v);
    assert(t == s.push(v));
    lemma_upsert(s, key, v);
    lemma_key_index(t, key, s.len() as int);
    assert(t.remove(s.len() as int) =~= s);
}

/// An element is in `s` extended by `x` exactly when it is `x` or in `s`.
pub proof fn lemma_contains_push<V>(s: Seq<V>, x: V, a: V)
    ensures
        s.push(x).contains(a) <==> (s.contains(a) || x == a),
{
    if s.push(x).contains(a) {
        let i = choose|i: int| 0 <= i < s.push(x).len() && s.push(x)[i] == a;
        if i < s.len() {
            assert(s[i] == a);
        }
    }
    if s.contains(a) {
        let i = choose|i: int| 0 <= i < s.len() && s[i] == a;
        assert(s.push(x)[i] == a);
    }
    if x == a {
        assert(s.push(x)[s.len() as int] == a);
    }
}

} // verus!
