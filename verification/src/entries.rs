//! Lists of key-value entries read as stores: a key's value is that of its
//! first entry, and storing replaces that entry or appends a new one.

use vstd::prelude::*;

verus! {

/// The index of the first entry, from the `i`th on, with key `k`.
pub open spec fn first_key<V>(s: Seq<(Seq<u8>, V)>, k: Seq<u8>, i: int) -> Option<int>
    decreases s.len() - i,
{
    if i < 0 || i >= s.len() {
        None
    } else if s[i].0 == k {
        Some(i)
    } else {
        first_key(s, k, i + 1)
    }
}

/// The value stored under `k`, if any.
pub open spec fn lookup<V>(s: Seq<(Seq<u8>, V)>, k: Seq<u8>) -> Option<V> {
    match first_key(s, k, 0) {
        Some(i) => Some(s[i].1),
        None => None,
    }
}

/// The entries after storing `v` under `k`: the entry with that key is
/// replaced, or a new entry appended.
pub open spec fn stored_after<V>(s: Seq<(Seq<u8>, V)>, k: Seq<u8>, v: V) -> Seq<(Seq<u8>, V)> {
    match first_key(s, k, 0) {
        Some(i) => s.update(i, (k, v)),
        None => s.push((k, v)),
    }
}

/// A first match lies within the entries and has the key; no entry before
/// it, from `i` on, does.
pub proof fn lemma_first_key<V>(s: Seq<(Seq<u8>, V)>, k: Seq<u8>, i: int)
    requires
        0 <= i,
    ensures
        first_key(s, k, i) matches Some(j) ==> i <= j < s.len() && s[j].0 == k && forall|m: int|
            i <= m < j ==> #[trigger] s[m].0 != k,
        first_key(s, k, i) is None ==> forall|m: int| i <= m < s.len() ==> #[trigger] s[m].0 != k,
    decreases s.len() - i,
{
    if i < s.len() {
        lemma_first_key(s, k, i + 1);
    }
}

/// The first entry with key `k`, when entries from `i` on lack it, is found
/// from `i` on just as from the start.
pub proof fn lemma_first_key_from<V>(s: Seq<(Seq<u8>, V)>, k: Seq<u8>, i: int)
    requires
        0 <= i <= s.len(),
        forall|m: int| 0 <= m < i ==> #[trigger] s[m].0 != k,
    ensures
        first_key(s, k, 0) == first_key(s, k, i),
    decreases i,
{
    if i > 0 {
        lemma_first_key_from(s, k, i - 1);
    }
}

/// A read after a write gives back what was written, and a write leaves the
/// values under other keys as they were.
pub proof fn lemma_lookup_stored_after<V>(s: Seq<(Seq<u8>, V)>, k: Seq<u8>, v: V, other: Seq<u8>)
    ensures
        lookup(stored_after(s, k, v), k) == Some(v),
        other != k ==> lookup(stored_after(s, k, v), other) == lookup(s, other),
{
    let t = stored_after(s, k, v);
    lemma_first_key(s, k, 0);
    lemma_first_key(s, other, 0);
    lemma_first_key(t, k, 0);
    lemma_first_key(t, other, 0);
    match first_key(s, k, 0) {
        Some(i) => {
            assert(t[i].0 == k);
            assert(forall|m: int| 0 <= m < i ==> #[trigger] t[m] == s[m]);
            if first_key(t, k, 0) != Some(i) {
                match first_key(t, k, 0) {
                    Some(j) => {
                        if j < i {
                            assert(t[j] == s[j]);
                        }
                    },
                    None => {
                        assert(t[i].0 == k);
                    },
                }
            }
            if other != k {
                assert(forall|m: int| 0 <= m < t.len() && m != i ==> #[trigger] t[m] == s[m]);
                match first_key(s, other, 0) {
                    Some(j) => {
                        assert(t[j] == s[j]);
                        if first_key(t, other, 0) != Some(j) {
                            match first_key(t, other, 0) {
                                Some(q) => {
                                    assert(t[q] == s[q]);
                                },
                                None => {},
                            }
                        }
                    },
                    None => {
                        match first_key(t, other, 0) {
                            Some(q) => {
                                assert(t[q] == s[q]);
                            },
                            None => {},
                        }
                    },
                }
            }
        },
        None => {
            assert(t.len() == s.len() + 1);
            assert(forall|m: int| 0 <= m < s.len() ==> #[trigger] t[m] == s[m]);
            assert(t[s.len() as int] == (k, v));
            match first_key(t, k, 0) {
                Some(j) => {
                    if j < s.len() {
                        assert(t[j] == s[j]);
                    }
                },
                None => {
                    assert(t[s.len() as int].0 == k);
                },
            }
            if other != k {
                match first_key(s, other, 0) {
                    Some(j) => {
                        assert(t[j] == s[j]);
                        match first_key(t, other, 0) {
                            Some(q) => {
                                if q < s.len() {
                                    assert(t[q] == s[q]);
                                }
                            },
                            None => {},
                        }
                    },
                    None => {
                        match first_key(t, other, 0) {
                            Some(q) => {
                                if q < s.len() {
                                    assert(t[q] == s[q]);
                                }
                            },
                            None => {},
                        }
                    },
                }
            }
        },
    }
}

} // verus!
