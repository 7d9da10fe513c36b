//! Lists of records in which a key picks out at most one record: the laws
//! that let such a list stand for a map from keys to records.
use vstd::prelude::*;

verus! {

/// No two records of `s` share a key.
pub open spec fn unique_keys<T, K>(s: Seq<T>, key: spec_fn(T) -> K) -> bool {
    forall|i: int, j: int| 0 <= i < j < s.len() ==> key(#[trigger] s[i]) != key(#[trigger] s[j])
}

/// Some record of `s` has key `k`.
pub open spec fn has_key<T, K>(s: Seq<T>, key: spec_fn(T) -> K, k: K) -> bool {
    exists|i: int| 0 <= i < s.len() && key(#[trigger] s[i]) == k
}

/// Position of the record with key `k`.
pub open spec fn index_of_key<T, K>(s: Seq<T>, key: spec_fn(T) -> K, k: K) -> int {
    choose|i: int| 0 <= i < s.len() && key(#[trigger] s[i]) == k
}

/// The list as a map from keys to records.
pub open spec fn key_map<T, K>(s: Seq<T>, key: spec_fn(T) -> K) -> Map<K, T> {
    Map::new(|k: K| has_key(s, key, k), |k: K| s[index_of_key(s, key, k)])
}

/// In a list with unique keys, the record at `i` is the one its key picks.
pub proof fn lemma_index_of_key<T, K>(s: Seq<T>, key: spec_fn(T) -> K, i: int)
    requires
        unique_keys(s, key),
        0 <= i < s.len(),
    ensures
        has_key(s, key, key(s[i])),
        index_of_key(s, key, key(s[i])) == i,
        key_map(s, key).contains_key(key(s[i])),
        key_map(s, key)[key(s[i])] == s[i],
{
    assert(key(s[i]) == key(s[i]));
    let j = index_of_key(s, key, key(s[i]));
    if j != i {
        if j < i {
            assert(key(s[j]) != key(s[i]));
        } else {
            assert(key(s[i]) != key(s[j]));
        }
    }
}

/// Replacing a record by one with the same key replaces that key's entry.
pub proof fn lemma_update<T, K>(s: Seq<T>, key: spec_fn(T) -> K, i: int, v: T)
    requires
        unique_keys(s, key),
        0 <= i < s.len(),
        key(v) == key(s[i]),
    ensures
        unique_keys(s.update(i, v), key),
        key_map(s.update(i, v), key) == key_map(s, key).insert(key(v), v),
{
    let t = s.update(i, v);
    assert forall|a: int, b: int| 0 <= a < b < t.len() implies key(#[trigger] t[a]) != key(
        #[trigger] t[b],
    ) by {
        assert(key(s[a]) != key(s[b]));
    }
    assert forall|k: K| has_key(t, key, k) == has_key(s, key, k) by {
        if has_key(s, key, k) {
            let j = index_of_key(s, key, k);
            assert(key(t[j]) == k);
        }
        if has_key(t, key, k) {
            let j = index_of_key(t, key, k);
            assert(key(s[j]) == k);
        }
    }
    assert forall|k: K| has_key(t, key, k) implies t[index_of_key(t, key, k)] == (if k == key(
        v,
    ) {
        v
    } else {
        s[index_of_key(s, key, k)]
    }) by {
        let j = index_of_key(t, key, k);
        lemma_index_of_key(t, key, j);
        if k != key(v) {
            lemma_index_of_key(s, key, j);
        } else {
            lemma_index_of_key(t, key, i);
        }
    }
    assert(key_map(t, key) =~= key_map(s, key).insert(key(v), v));
}

/// Appending a record with a new key adds that key's entry.
pub proof fn lemma_push<T, K>(s: Seq<T>, key: spec_fn(T) -> K, v: T)
    requires
        unique_keys(s, key),
        !has_key(s, key, key(v)),
    ensures
        unique_keys(s.push(v), key),
        key_map(s.push(v), key) == key_map(s, key).insert(key(v), v),
{
    let t = s.push(v);
    let n = s.len() as int;
    assert forall|a: int, b: int| 0 <= a < b < t.len() implies key(#[trigger] t[a]) != key(
        #[trigger] t[b],
    ) by {
        if b == n {
            assert(key(s[a]) != key(v));
        } else {
            assert(key(s[a]) != key(s[b]));
        }
    }
    assert(key(t[n]) == key(v));
    assert forall|k: K| #[trigger] has_key(t, key, k) == (has_key(s, key, k) || k == key(v)) by {
        if has_key(s, key, k) {
            let j = index_of_key(s, key, k);
            assert(key(t[j]) == k);
        }
        if has_key(t, key, k) && k != key(v) {
            let j = index_of_key(t, key, k);
            assert(key(s[j]) == k);
        }
    }
    assert forall|k: K| has_key(t, key, k) implies t[index_of_key(t, key, k)] == (if k == key(
        v,
    ) {
        v
    } else {
        s[index_of_key(s, key, k)]
    }) by {
        let j = index_of_key(t, key, k);
        lemma_index_of_key(t, key, j);
        if k == key(v) {
            lemma_index_of_key(t, key, n);
        } else {
            lemma_index_of_key(s, key, j);
        }
    }
    assert(key_map(t, key) =~= key_map(s, key).insert(key(v), v));
}

/// Removing the record at `i` removes its key's entry.
pub proof fn lemma_remove<T, K>(s: Seq<T>, key: spec_fn(T) -> K, i: int)
    requires
        unique_keys(s, key),
        0 <= i < s.len(),
    ensures
        unique_keys(s.remove(i), key),
        key_map(s.remove(i), key) == key_map(s, key).remove(key(s[i])),
{
    let t = s.remove(i);
    let gone = key(s[i]);
    assert forall|a: int, b: int| 0 <= a < b < t.len() implies key(#[trigger] t[a]) != key(
        #[trigger] t[b],
    ) by {
        let a0 = if a < i { a } else { a + 1 };
        let b0 = if b < i { b } else { b + 1 };
        assert(t[a] == s[a0]);
        assert(t[b] == s[b0]);
        assert(key(s[a0]) != key(s[b0]));
    }
    assert forall|k: K| #[trigger] has_key(t, key, k) == (has_key(s, key, k) && k != gone) by {
        if has_key(s, key, k) && k != gone {
            let j = index_of_key(s, key, k);
            assert(j != i);
            if j < i {
                assert(key(t[j]) == k);
            } else {
                assert(key(t[j - 1]) == k);
            }
        }
        if has_key(t, key, k) {
            let j = index_of_key(t, key, k);
            let j0 = if j < i { j } else { j + 1 };
            assert(t[j] == s[j0]);
            assert(key(s[j0]) == k);
            if k == gone {
                if j0 < i {
                    assert(key(s[j0]) != key(s[i]));
                } else {
                    assert(key(s[i]) != key(s[j0]));
                }
            }
        }
    }
    assert forall|k: K| has_key(t, key, k) implies t[index_of_key(t, key, k)] == s[index_of_key(
        s,
        key,
        k,
    )] by {
        let j = index_of_key(t, key, k);
        let j0 = if j < i { j } else { j + 1 };
        assert(t[j] == s[j0]);
        lemma_index_of_key(s, key, j0);
    }
    assert(key_map(t, key) =~= key_map(s, key).remove(gone));
}

} // verus!
