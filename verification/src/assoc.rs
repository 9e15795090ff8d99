//! Verified association lists keyed by strings: lookup, upsert and merge.
//!
//! The tool-config documents of the supported targets hold a mapping keyed
//! by tool name. These functions carry the non-destructive merge semantics:
//! existing keys survive a merge untouched unless an update names them.
//!
//! The specifications speak of entries as pairs of a key view and a value;
//! [`entries_view`] maps an owned entry list onto that form.

use vstd::prelude::*;

verus! {

/// The view of an owned entry list: each key replaced by its view.
pub open spec fn entries_view<T>(es: Seq<(String, T)>) -> Seq<(Seq<char>, T)> {
    es.map_values(|p: (String, T)| (p.0@, p.1))
}

/// Index of the first entry whose key reads `k`, if any.
pub open spec fn key_index<T>(es: Seq<(Seq<char>, T)>, k: Seq<char>) -> Option<int>
    decreases es.len(),
{
    if es.len() == 0 {
        None
    } else if es[0].0 == k {
        Some(0)
    } else {
        match key_index(es.subrange(1, es.len() as int), k) {
            Some(i) => Some(i + 1),
            None => None,
        }
    }
}

/// A key is present when some entry carries it.
pub open spec fn has_key<T>(es: Seq<(Seq<char>, T)>, k: Seq<char>) -> bool {
    key_index(es, k) is Some
}

/// The value stored under `k`, taken from the first entry that carries it.
pub open spec fn value_at<T>(es: Seq<(Seq<char>, T)>, k: Seq<char>) -> T
    recommends
        has_key(es, k),
{
    es[key_index(es, k)->Some_0].1
}

/// What `key_index` returns: the least index carrying `k`, or `None` when
/// no entry does.
pub proof fn lemma_key_index_props<T>(es: Seq<(Seq<char>, T)>, k: Seq<char>)
    ensures
        match key_index(es, k) {
            Some(i) => 0 <= i < es.len() && es[i].0 == k && (forall|j: int|
                0 <= j < i ==> es[j].0 != k),
            None => forall|j: int| 0 <= j < es.len() ==> es[j].0 != k,
        },
    decreases es.len(),
{
    if es.len() > 0 && es[0].0 != k {
        let t = es.subrange(1, es.len() as int);
        lemma_key_index_props(t, k);
        match key_index(t, k) {
            Some(i) => {
                assert(t[i] == es[i + 1]);
                assert forall|j: int| 0 <= j < i + 1 implies es[j].0 != k by {
                    if j >= 1 {
                        assert(t[j - 1] == es[j]);
                    }
                }
            },
            None => {
                assert forall|j: int| 0 <= j < es.len() implies es[j].0 != k by {
                    if j >= 1 {
                        assert(t[j - 1] == es[j]);
                    }
                }
            },
        }
    }
}

/// If index `i` carries `k` and no earlier entry does, `key_index` is `i`.
pub proof fn lemma_key_index_unique<T>(es: Seq<(Seq<char>, T)>, k: Seq<char>, i: int)
    requires
        0 <= i < es.len(),
        es[i].0 == k,
        forall|j: int| 0 <= j < i ==> es[j].0 != k,
    ensures
        key_index(es, k) == Some(i),
{
    lemma_key_index_props(es, k);
    match key_index(es, k) {
        Some(x) => {
            if x < i {
                assert(es[x].0 != k);
            }
            if x > i {
                assert(es[i].0 != k);
            }
        },
        None => {
            assert(es[i].0 != k);
        },
    }
}

/// `es` with the value under `key` replaced in place, or with `(key, v)`
/// appended when `key` is absent.
pub open spec fn upsert_spec<T>(es: Seq<(Seq<char>, T)>, key: Seq<char>, v: T) -> Seq<
    (Seq<char>, T),
> {
    match key_index(es, key) {
        Some(i) => es.update(i, (key, v)),
        None => es.push((key, v)),
    }
}

/// `es` with every update of `us` applied in order by `upsert_spec`.
pub open spec fn merge_spec<T>(es: Seq<(Seq<char>, T)>, us: Seq<(Seq<char>, T)>) -> Seq<
    (Seq<char>, T),
>
    decreases us.len(),
{
    if us.len() == 0 {
        es
    } else {
        merge_spec(upsert_spec(es, us[0].0, us[0].1), us.subrange(1, us.len() as int))
    }
}

/// All keys of `es` are distinct.
pub open spec fn unique_keys<T>(es: Seq<(Seq<char>, T)>) -> bool {
    forall|i: int, j: int| 0 <= i < j < es.len() ==> es[i].0 != es[j].0
}

/// An upsert leaves every other key where it was, with its value unchanged.
pub proof fn lemma_upsert_frame<T>(es: Seq<(Seq<char>, T)>, key: Seq<char>, v: T, k: Seq<char>)
    requires
        k != key,
    ensures
        key_index(upsert_spec(es, key, v), k) == key_index(es, k),
        has_key(es, k) ==> value_at(upsert_spec(es, key, v), k) == value_at(es, k),
{
    lemma_key_index_props(es, k);
    lemma_key_index_props(es, key);
    let r = upsert_spec(es, key, v);
    match key_index(es, key) {
        Some(u) => {
            assert(r == es.update(u, (key, v)));
            match key_index(es, k) {
                Some(i) => {
                    assert(i != u);
                    assert(r[i].0 == k);
                    assert forall|j: int| 0 <= j < i implies r[j].0 != k by {
                        if j != u {
                            assert(r[j] == es[j]);
                        }
                    }
                    lemma_key_index_unique(r, k, i);
                },
                None => {
                    lemma_key_index_props(r, k);
                    match key_index(r, k) {
                        Some(i) => {
                            if i == u {
                                assert(r[i].0 == key);
                            } else {
                                assert(es[i].0 != k);
                            }
                            assert(false);
                        },
                        None => {},
                    }
                },
            }
        },
        None => {
            assert(r == es.push((key, v)));
            match key_index(es, k) {
                Some(i) => {
                    assert(r[i].0 == k);
                    assert forall|j: int| 0 <= j < i implies r[j].0 != k by {
                        assert(r[j] == es[j]);
                    }
                    lemma_key_index_unique(r, k, i);
                },
                None => {
                    lemma_key_index_props(r, k);
                    match key_index(r, k) {
                        Some(i) => {
                            if i < es.len() {
                                assert(es[i].0 != k);
                            } else {
                                assert(r[i].0 == key);
                            }
                            assert(false);
                        },
                        None => {},
                    }
                },
            }
        },
    }
}

/// After an upsert the key it names carries the new value.
pub proof fn lemma_upsert_hit<T>(es: Seq<(Seq<char>, T)>, key: Seq<char>, v: T)
    ensures
        has_key(upsert_spec(es, key, v), key),
        value_at(upsert_spec(es, key, v), key) == v,
{
    lemma_key_index_props(es, key);
    let r = upsert_spec(es, key, v);
    match key_index(es, key) {
        Some(i) => {
            assert(r == es.update(i, (key, v)));
            assert(r[i].0 == key);
            assert forall|j: int| 0 <= j < i implies r[j].0 != key by {
                assert(r[j] == es[j]);
            }
            lemma_key_index_unique(r, key, i);
        },
        None => {
            assert(r == es.push((key, v)));
            let i = es.len() as int;
            assert(r[i].0 == key);
            assert forall|j: int| 0 <= j < i implies r[j].0 != key by {
                assert(r[j] == es[j]);
            }
            lemma_key_index_unique(r, key, i);
        },
    }
}

/// A merge never disturbs a key that no update names: the key keeps its
/// index and its value. In particular no existing key is ever removed.
pub proof fn lemma_merge_preserves_foreign<T>(
    es: Seq<(Seq<char>, T)>,
    us: Seq<(Seq<char>, T)>,
    k: Seq<char>,
)
    requires
        forall|j: int| 0 <= j < us.len() ==> us[j].0 != k,
    ensures
        key_index(merge_spec(es, us), k) == key_index(es, k),
        has_key(es, k) ==> value_at(merge_spec(es, us), k) == value_at(es, k),
    decreases us.len(),
{
    if us.len() > 0 {
        let es1 = upsert_spec(es, us[0].0, us[0].1);
        assert(us[0].0 != k);
        lemma_upsert_frame(es, us[0].0, us[0].1, k);
        lemma_merge_preserves_foreign(es1, us.subrange(1, us.len() as int), k);
    }
}

/// After a merge with distinct update keys, every update is present with
/// exactly the value it carried.
pub proof fn lemma_merge_applies_updates<T>(
    es: Seq<(Seq<char>, T)>,
    us: Seq<(Seq<char>, T)>,
    j: int,
)
    requires
        unique_keys(us),
        0 <= j < us.len(),
    ensures
        has_key(merge_spec(es, us), us[j].0),
        value_at(merge_spec(es, us), us[j].0) == us[j].1,
    decreases us.len(),
{
    let es1 = upsert_spec(es, us[0].0, us[0].1);
    let rest = us.subrange(1, us.len() as int);
    if j == 0 {
        lemma_upsert_hit(es, us[0].0, us[0].1);
        assert(forall|m: int| 0 <= m < rest.len() ==> rest[m].0 != us[0].0);
        lemma_merge_preserves_foreign(es1, rest, us[0].0);
    } else {
        assert(rest[j - 1] == us[j]);
        lemma_merge_applies_updates(es1, rest, j - 1);
    }
}

/// Merging the same updates twice observes as merging them once: re-running
/// a tool installation leaves the mapping with the same keys and the same
/// values under them.
pub proof fn lemma_merge_idempotent<T>(
    es: Seq<(Seq<char>, T)>,
    us: Seq<(Seq<char>, T)>,
    k: Seq<char>,
)
    requires
        unique_keys(us),
    ensures
        has_key(merge_spec(merge_spec(es, us), us), k) == has_key(merge_spec(es, us), k),
        has_key(merge_spec(es, us), k) ==> value_at(merge_spec(merge_spec(es, us), us), k)
            == value_at(merge_spec(es, us), k),
{
    let once = merge_spec(es, us);
    if exists|j: int| 0 <= j < us.len() && us[j].0 == k {
        let j = choose|j: int| 0 <= j < us.len() && us[j].0 == k;
        lemma_merge_applies_updates(es, us, j);
        lemma_merge_applies_updates(once, us, j);
    } else {
        assert(forall|j: int| 0 <= j < us.len() ==> us[j].0 != k);
        lemma_merge_preserves_foreign(once, us, k);
    }
}

/// A merge never shortens the mapping.
pub proof fn lemma_merge_len<T>(es: Seq<(Seq<char>, T)>, us: Seq<(Seq<char>, T)>)
    ensures
        merge_spec(es, us).len() >= es.len(),
    decreases us.len(),
{
    if us.len() > 0 {
        let es1 = upsert_spec(es, us[0].0, us[0].1);
        lemma_key_index_props(es, us[0].0);
        assert(es1.len() >= es.len());
        lemma_merge_len(es1, us.subrange(1, us.len() as int));
    }
}

/// Index of the first entry keyed `key`, or `None`.
pub fn find_key<T>(es: &Vec<(String, T)>, key: &str) -> (r: Option<usize>)
    ensures
        match r {
            Some(i) => key_index(entries_view(es@), key@) == Some(i as int),
            None => key_index(entries_view(es@), key@) is None,
        },
{
    let ghost ev = entries_view(es@);
    let mut i: usize = 0;
    while i < es.len()
        invariant
            ev == entries_view(es@),
            ev.len() == es@.len(),
            i <= es@.len(),
            forall|j: int| 0 <= j < i ==> ev[j].0 != key@,
        decreases es@.len() - i,
    {
        assert(ev[i as int] == (es@[i as int].0@, es@[i as int].1));
        if crate::text::str_eq(es[i].0.as_str(), key) {
            proof {
                lemma_key_index_unique(ev, key@, i as int);
            }
            return Some(i);
        }
        i = i + 1;
    }
    proof {
        lemma_key_index_props(ev, key@);
        match key_index(ev, key@) {
            Some(x) => {
                assert(ev[x].0 != key@);
            },
            None => {},
        }
    }
    None
}

/// Replace the value under `key`, or append the pair when `key` is absent.
pub fn upsert<T>(es: &mut Vec<(String, T)>, key: String, v: T)
    ensures
        entries_view(final (es)@) == upsert_spec(entries_view(old(es)@), key@, v),
{
    let ghost orig = entries_view(es@);
    let mut i: usize = 0;
    while i < es.len()
        invariant
            orig == entries_view(old(es)@),
            entries_view(es@) == orig,
            i <= es@.len(),
            orig.len() == es@.len(),
            forall|j: int| 0 <= j < i ==> orig[j].0 != key@,
        decreases es@.len() - i,
    {
        assert(orig[i as int] == (es@[i as int].0@, es@[i as int].1));
        if es[i].0 == key {
            proof {
                lemma_key_index_unique(orig, key@, i as int);
            }
            es.set(i, (key, v));
            assert(entries_view(es@) =~= upsert_spec(orig, key@, v));
            return ;
        }
        i = i + 1;
    }
    proof {
        lemma_key_index_props(orig, key@);
        match key_index(orig, key@) {
            Some(x) => {
                assert(orig[x].0 != key@);
            },
            None => {},
        }
    }
    es.push((key, v));
    assert(entries_view(es@) =~= upsert_spec(orig, key@, v));
}

/// Apply every update of `us`, in order, to `es`.
pub fn merge_entries<T>(es: &mut Vec<(String, T)>, us: Vec<(String, T)>)
    ensures
        entries_view(final (es)@) == merge_spec(entries_view(old(es)@), entries_view(us@)),
{
    let ghost orig_es = entries_view(old(es)@);
    let ghost orig_us = entries_view(us@);
    let mut us = us;
    while us.len() > 0
        invariant
            merge_spec(entries_view(es@), entries_view(us@)) == merge_spec(orig_es, orig_us),
        decreases us@.len(),
    {
        let ghost before = entries_view(us@);
        let (key, v) = us.remove(0);
        proof {
            assert(entries_view(us@) =~= before.subrange(1, before.len() as int));
            assert(before[0] == (key@, v));
        }
        upsert(es, key, v);
    }
    assert(entries_view(us@) =~= Seq::<(Seq<char>, T)>::empty());
}

} // verus!
