//! Association lists with distinct keys, read as finite maps.
use vstd::prelude::*;

verus! {

/// No key occurs twice.
pub open spec fn keys_distinct<K, V>(s: Seq<(K, V)>) -> bool {
    forall|i: int, j: int|
        0 <= i < s.len() && 0 <= j < s.len() && i != j ==> #[trigger] s[i].0 != #[trigger] s[j].0
}

/// Some entry carries the key.
pub open spec fn has_key<K, V>(s: Seq<(K, V)>, k: K) -> bool {
    exists|i: int| 0 <= i < s.len() && #[trigger] s[i].0 == k
}

/// The position of an entry that carries the key.
pub open spec fn key_index<K, V>(s: Seq<(K, V)>, k: K) -> int {
    choose|i: int| 0 <= i < s.len() && #[trigger] s[i].0 == k
}

/// The map that the list stands for.
pub open spec fn to_map<K, V>(s: Seq<(K, V)>) -> Map<K, V> {
    Map::new(|k: K| has_key(s, k), |k: K| s[key_index(s, k)].1)
}

/// The keys, in list order.
pub open spec fn keys_of<K, V>(s: Seq<(K, V)>) -> Seq<K> {
    s.map_values(|e: (K, V)| e.0)
}

/// The values, in list order.
pub open spec fn values_of<K, V>(s: Seq<(K, V)>) -> Seq<V> {
    s.map_values(|e: (K, V)| e.1)
}

pub proof fn lemma_key_index<K, V>(s: Seq<(K, V)>, i: int)
    requires
        keys_distinct(s),
        0 <= i < s.len(),
    ensures
        has_key(s, s[i].0),
        key_index(s, s[i].0) == i,
        to_map(s).contains_key(s[i].0),
        to_map(s)[s[i].0] == s[i].1,
{
    assert(has_key(s, s[i].0));
    let j = key_index(s, s[i].0);
    assert(s[j].0 == s[i].0);
}

pub proof fn lemma_push<K, V>(s: Seq<(K, V)>, k: K, v: V)
    requires
        keys_distinct(s),
        !has_key(s, k),
    ensures
        keys_distinct(s.push((k, v))),
        to_map(s.push((k, v))) =~= to_map(s).insert(k, v),
{
    let t = s.push((k, v));
    assert forall|i: int, j: int|
        0 <= i < t.len() && 0 <= j < t.len() && i != j implies #[trigger] t[i].0 != #[trigger] t[j].0 by {
        if i < s.len() && j < s.len() {
            assert(t[i] == s[i] && t[j] == s[j]);
        } else if i < s.len() {
            assert(t[i] == s[i]);
        } else {
            assert(t[j] == s[j]);
        }
    }
    assert forall|x: K| #[trigger] to_map(t).contains_key(x) == to_map(s).insert(k, v).contains_key(x) by {
        if has_key(s, x) {
            let i = key_index(s, x);
            assert(t[i] == s[i]);
        }
        if has_key(t, x) {
            let i = key_index(t, x);
            if i < s.len() {
                assert(t[i] == s[i]);
            }
        }
        if x == k {
            assert(t[s.len() as int].0 == k);
        }
    }
    assert forall|x: K| #[trigger] to_map(t).contains_key(x) implies to_map(t)[x] == to_map(s).insert(k, v)[x] by {
        if x == k {
            lemma_key_index(t, s.len() as int);
        } else {
            let i = key_index(t, x);
            assert(i < s.len());
            assert(t[i] == s[i]);
            lemma_key_index(t, i);
            lemma_key_index(s, i);
        }
    }
}

pub proof fn lemma_update<K, V>(s: Seq<(K, V)>, i: int, v: V)
    requires
        keys_distinct(s),
        0 <= i < s.len(),
    ensures
        keys_distinct(s.update(i, (s[i].0, v))),
        to_map(s.update(i, (s[i].0, v))) =~= to_map(s).insert(s[i].0, v),
{
    let k = s[i].0;
    let t = s.update(i, (k, v));
    assert forall|a: int, b: int|
        0 <= a < t.len() && 0 <= b < t.len() && a != b implies #[trigger] t[a].0 != #[trigger] t[b].0 by {
        assert(t[a].0 == s[a].0 && t[b].0 == s[b].0);
    }
    assert forall|x: K| #[trigger] to_map(t).contains_key(x) == to_map(s).insert(k, v).contains_key(x) by {
        if has_key(s, x) {
            let j = key_index(s, x);
            assert(t[j].0 == s[j].0);
        }
        if has_key(t, x) {
            let j = key_index(t, x);
            assert(t[j].0 == s[j].0);
        }
    }
    assert forall|x: K| #[trigger] to_map(t).contains_key(x) implies to_map(t)[x] == to_map(s).insert(k, v)[x] by {
        let j = key_index(t, x);
        assert(t[j].0 == s[j].0);
        lemma_key_index(t, j);
        lemma_key_index(s, j);
        if j == i {
            assert(x == k);
        } else {
            assert(x != k);
            assert(t[j] == s[j]);
        }
    }
}

pub proof fn lemma_remove<K, V>(s: Seq<(K, V)>, i: int)
    requires
        keys_distinct(s),
        0 <= i < s.len(),
    ensures
        keys_distinct(s.remove(i)),
        to_map(s.remove(i)) =~= to_map(s).remove(s[i].0),
{
    let k = s[i].0;
    let t = s.remove(i);
    assert forall|a: int, b: int|
        0 <= a < t.len() && 0 <= b < t.len() && a != b implies #[trigger] t[a].0 != #[trigger] t[b].0 by {
        let a2 = if a < i { a } else { a + 1 };
        let b2 = if b < i { b } else { b + 1 };
        assert(t[a] == s[a2] && t[b] == s[b2]);
    }
    assert forall|x: K| #[trigger] to_map(t).contains_key(x) == to_map(s).remove(k).contains_key(x) by {
        if has_key(s, x) && x != k {
            let j = key_index(s, x);
            assert(j != i);
            let j2 = if j < i { j } else { j - 1 };
            assert(t[j2] == s[j]);
        }
        if has_key(t, x) {
            let j = key_index(t, x);
            let j2 = if j < i { j } else { j + 1 };
            assert(t[j] == s[j2]);
            assert(j2 != i);
        }
    }
    assert forall|x: K| #[trigger] to_map(t).contains_key(x) implies to_map(t)[x] == to_map(s).remove(k)[x] by {
        let j = key_index(t, x);
        let j2 = if j < i { j } else { j + 1 };
        assert(t[j] == s[j2]);
        lemma_key_index(t, j);
        lemma_key_index(s, j2);
    }
}

/// A list with distinct keys has as many entries as its map.
pub proof fn lemma_map_len<K, V>(s: Seq<(K, V)>)
    requires
        keys_distinct(s),
    ensures
        to_map(s).dom().finite(),
        to_map(s).len() == s.len(),
    decreases s.len(),
{
    if s.len() == 0 {
        assert(to_map(s) =~= Map::<K, V>::empty());
    } else {
        let t = s.drop_last();
        let last = s.last();
        assert(keys_distinct(t)) by {
            assert forall|i: int, j: int|
                0 <= i < t.len() && 0 <= j < t.len() && i != j implies #[trigger] t[i].0 != #[trigger] t[j].0 by {
                assert(t[i] == s[i] && t[j] == s[j]);
            }
        }
        assert(!has_key(t, last.0)) by {
            if has_key(t, last.0) {
                let i = key_index(t, last.0);
                assert(t[i] == s[i]);
                assert(s[i].0 == s[s.len() - 1].0);
            }
        }
        lemma_map_len(t);
        lemma_push(t, last.0, last.1);
        assert(t.push((last.0, last.1)) =~= s);
    }
}

pub proof fn lemma_empty<K, V>()
    ensures
        keys_distinct(Seq::<(K, V)>::empty()),
        to_map(Seq::<(K, V)>::empty()) =~= Map::<K, V>::empty(),
{
}

/// Finds the position of a numeric key.
pub fn find_id<V>(entries: &Vec<(u64, V)>, id: u64) -> (r: Option<usize>)
    ensures
        match r {
            Some(i) => i < entries@.len() && entries@[i as int].0 == id,
            None => !has_key(entries@, id),
        },
{
    let mut i: usize = 0;
    while i < entries.len()
        invariant
            i <= entries@.len(),
            forall|j: int| 0 <= j < i ==> #[trigger] entries@[j].0 != id,
        decreases entries@.len() - i,
    {
        if entries[i].0 == id {
            return Some(i);
        }
        i = i + 1;
    }
    None
}

} // verus!
