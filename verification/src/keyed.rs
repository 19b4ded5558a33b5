//! Lists of entries keyed by text, with the semantics of a map: a key
//! occurs at most once, a lookup finds its entry, and an insertion
//! replaces the value under an existing key in place or appends a new
//! entry at the end.

use vstd::prelude::*;
use crate::text::str_eq;

verus! {

broadcast use vstd::string::group_string_axioms;

/// The entries with their keys and values taken by view.
pub open spec fn entries_view<V: View>(es: Seq<(String, V)>) -> Seq<(Seq<char>, V::V)> {
    es.map_values(|e: (String, V)| (e.0@, e.1@))
}

/// The keys, in order.
pub open spec fn keys_of<W>(es: Seq<(Seq<char>, W)>) -> Seq<Seq<char>> {
    es.map_values(|e: (Seq<char>, W)| e.0)
}

/// No key occurs twice.
pub open spec fn distinct_keys<W>(es: Seq<(Seq<char>, W)>) -> bool {
    forall|i: int, j: int| 0 <= i < j < es.len() ==> es[i].0 != es[j].0
}

/// Some entry has key `k`.
pub open spec fn has_key<W>(es: Seq<(Seq<char>, W)>, k: Seq<char>) -> bool {
    exists|i: int| 0 <= i < es.len() && es[i].0 == k
}

/// `i` is the position of the first entry with key `k`.
pub open spec fn first_key_at<W>(es: Seq<(Seq<char>, W)>, k: Seq<char>, i: int) -> bool {
    &&& 0 <= i < es.len()
    &&& es[i].0 == k
    &&& forall|j: int| 0 <= j < i ==> es[j].0 != k
}

/// The position of the first entry with key `k`, when there is one.
pub open spec fn key_index<W>(es: Seq<(Seq<char>, W)>, k: Seq<char>) -> int {
    choose|i: int| first_key_at(es, k, i)
}

/// The value of the first entry with key `k`.
pub open spec fn key_value<W>(es: Seq<(Seq<char>, W)>, k: Seq<char>) -> Option<W> {
    if has_key(es, k) {
        Some(es[key_index(es, k)].1)
    } else {
        None
    }
}

/// `es` with `v` under `k`: the first entry with that key gets the new
/// value in place, or, with no such entry, a new entry is appended.
pub open spec fn keyed_insert<W>(es: Seq<(Seq<char>, W)>, k: Seq<char>, v: W) -> Seq<(Seq<char>, W)> {
    if has_key(es, k) {
        es.update(key_index(es, k), (k, v))
    } else {
        es.push((k, v))
    }
}

/// The first entry with a key is unique.
pub proof fn lemma_first_key_unique<W>(es: Seq<(Seq<char>, W)>, k: Seq<char>, i: int)
    requires
        first_key_at(es, k, i),
    ensures
        has_key(es, k),
        key_index(es, k) == i,
{
    assert(first_key_at(es, k, key_index(es, k)));
    let c = key_index(es, k);
    if c < i {
        assert(es[c].0 != k);
    } else if i < c {
        assert(es[i].0 != k);
    }
}

/// When some entry has key `k`, there is a first one.
pub proof fn lemma_first_key_exists<W>(es: Seq<(Seq<char>, W)>, k: Seq<char>)
    requires
        has_key(es, k),
    ensures
        first_key_at(es, k, key_index(es, k)),
    decreases es.len(),
{
    let d = es.drop_last();
    if has_key(d, k) {
        lemma_first_key_exists(d, k);
        let i = key_index(d, k);
        assert(es[i] == d[i]);
        assert forall|j: int| 0 <= j < i implies es[j].0 != k by {
            assert(es[j] == d[j]);
        }
        assert(first_key_at(es, k, i));
    } else {
        let n = es.len() - 1;
        assert forall|j: int| 0 <= j < n implies es[j].0 != k by {
            assert(d[j] == es[j]);
        }
        let w = choose|i: int| 0 <= i < es.len() && es[i].0 == k;
        if w < n {
            assert(d[w] == es[w]);
        }
        assert(first_key_at(es, k, n));
    }
}

/// Inserting keeps the keys distinct and makes the value readable under its key.
pub proof fn lemma_keyed_insert<W>(es: Seq<(Seq<char>, W)>, k: Seq<char>, v: W)
    requires
        distinct_keys(es),
    ensures
        distinct_keys(keyed_insert(es, k, v)),
        key_value(keyed_insert(es, k, v), k) == Some(v),
        forall|q: Seq<char>| q != k ==> key_value(#[trigger] keyed_insert(es, k, v), q) == key_value(es, q),
{
    let r = keyed_insert(es, k, v);
    if has_key(es, k) {
        let w = choose|i: int| 0 <= i < es.len() && es[i].0 == k;
        assert(first_key_at(es, k, w)) by {
            assert forall|j: int| 0 <= j < w implies es[j].0 != k by {
                if es[j].0 == k {
                    assert(es[j].0 == es[w].0);
                }
            }
        }
        lemma_first_key_unique(es, k, w);
        assert(forall|j: int| 0 <= j < r.len() && j != w ==> r[j] == es[j]);
        assert(first_key_at(r, k, w));
        lemma_first_key_unique(r, k, w);
        assert forall|q: Seq<char>| q != k implies key_value(#[trigger] keyed_insert(es, k, v), q) == key_value(es, q) by {
            if has_key(es, q) {
                let t = choose|i: int| 0 <= i < es.len() && es[i].0 == q;
                assert(first_key_at(es, q, t)) by {
                    assert forall|j: int| 0 <= j < t implies es[j].0 != q by {
                        if es[j].0 == q {
                            assert(es[j].0 == es[t].0);
                        }
                    }
                }
                lemma_first_key_unique(es, q, t);
                assert(r[t] == es[t]);
                assert(first_key_at(r, q, t));
                lemma_first_key_unique(r, q, t);
            } else {
                if has_key(r, q) {
                    let t = choose|i: int| 0 <= i < r.len() && r[i].0 == q;
                    assert(r[t] == es[t]);
                }
            }
        }
    } else {
        let n = es.len() as int;
        assert(first_key_at(r, k, n));
        lemma_first_key_unique(r, k, n);
        assert forall|q: Seq<char>| q != k implies key_value(#[trigger] keyed_insert(es, k, v), q) == key_value(es, q) by {
            if has_key(es, q) {
                let t = choose|i: int| 0 <= i < es.len() && es[i].0 == q;
                assert(first_key_at(es, q, t)) by {
                    assert forall|j: int| 0 <= j < t implies es[j].0 != q by {
                        if es[j].0 == q {
                            assert(es[j].0 == es[t].0);
                        }
                    }
                }
                lemma_first_key_unique(es, q, t);
                assert(r[t] == es[t]);
                assert(first_key_at(r, q, t));
                lemma_first_key_unique(r, q, t);
            } else {
                if has_key(r, q) {
                    let t = choose|i: int| 0 <= i < r.len() && r[i].0 == q;
                    assert(t < n);
                    assert(r[t] == es[t]);
                }
            }
        }
    }
}

/// The position of the first entry whose key is `k`.
pub fn find_key<V: View>(es: &Vec<(String, V)>, k: &str) -> (r: Option<usize>)
    ensures
        match r {
            Some(i) => first_key_at(entries_view(es@), k@, i as int),
            None => !has_key(entries_view(es@), k@),
        },
{
    let ghost ev = entries_view(es@);
    let mut i: usize = 0;
    while i < es.len()
        invariant
            i <= es@.len(),
            ev == entries_view(es@),
            forall|j: int| 0 <= j < i ==> ev[j].0 != k@,
        decreases es@.len() - i,
    {
        if str_eq(es[i].0.as_str(), k) {
            return Some(i);
        }
        i = i + 1;
    }
    None
}

/// Puts `v` under `k`; see `keyed_insert`.
pub fn insert_keyed<V: View>(es: &mut Vec<(String, V)>, k: String, v: V)
    ensures
        entries_view(final(es)@) == keyed_insert(entries_view(old(es)@), k@, v@),
        distinct_keys(entries_view(old(es)@)) ==> distinct_keys(entries_view(final(es)@)),
{
    let ghost ev = entries_view(es@);
    let ghost kv = k@;
    let ghost vv = v@;
    proof {
        if distinct_keys(ev) {
            lemma_keyed_insert(ev, kv, vv);
        }
    }
    match find_key(es, k.as_str()) {
        Some(i) => {
            proof {
                lemma_first_key_unique(ev, kv, i as int);
            }
            es.set(i, (k, v));
            assert(entries_view(es@) =~= ev.update(i as int, (kv, vv)));
        },
        None => {
            es.push((k, v));
            assert(entries_view(es@) =~= ev.push((kv, vv)));
        },
    }
}

/// The value under `k`, if any; see `key_value`.
pub fn get_keyed<'a, V: View>(es: &'a Vec<(String, V)>, k: &str) -> (r: Option<&'a V>)
    ensures
        match r {
            Some(v) => key_value(entries_view(es@), k@) == Some(v@),
            None => key_value(entries_view(es@), k@) is None,
        },
{
    match find_key(es, k) {
        Some(i) => {
            proof {
                lemma_first_key_unique(entries_view(es@), k@, i as int);
            }
            Some(&es[i].1)
        },
        None => None,
    }
}

} // verus!
