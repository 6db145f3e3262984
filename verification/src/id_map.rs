//! Values under distinct numeric ids, read as a map.
use vstd::prelude::*;
use crate::keyed::{find_id, keys_distinct, lemma_empty, lemma_key_index, lemma_push, lemma_remove, lemma_update, to_map};

verus! {

/// Values under distinct numeric ids.
pub struct IdMap<V> {
    entries: Vec<(u64, V)>,
}

impl<V> IdMap<V> {
    /// The map the table stands for.
    pub closed spec fn map(&self) -> Map<u64, V> {
        to_map(self.entries@)
    }

    #[verifier::type_invariant]
    closed spec fn inv(&self) -> bool {
        keys_distinct(self.entries@)
    }

    pub fn new() -> (t: Self)
        ensures
            t.map() == Map::<u64, V>::empty(),
    {
        proof {
            lemma_empty::<u64, V>();
        }
        IdMap { entries: Vec::new() }
    }

    pub fn get(&self, id: u64) -> (r: Option<&V>)
        ensures
            match r {
                Some(v) => self.map().contains_key(id) && *v == self.map()[id],
                None => !self.map().contains_key(id),
            },
    {
        proof {
            use_type_invariant(self);
        }
        match find_id(&self.entries, id) {
            Some(i) => {
                proof {
                    lemma_key_index(self.entries@, i as int);
                }
                Some(&self.entries[i].1)
            },
            None => None,
        }
    }

    /// Puts `v` under `id`, replacing what the id held.
    pub fn insert(&mut self, id: u64, v: V)
        ensures
            final(self).map() == old(self).map().insert(id, v),
    {
        proof {
            use_type_invariant(&*self);
        }
        let mut entries: Vec<(u64, V)> = Vec::new();
        std::mem::swap(&mut entries, &mut self.entries);
        match find_id(&entries, id) {
            Some(i) => {
                proof {
                    lemma_update(entries@, i as int, v);
                }
                entries.set(i, (id, v));
            },
            None => {
                proof {
                    lemma_push(entries@, id, v);
                }
                entries.push((id, v));
            },
        }
        self.entries = entries;
    }

    /// Takes the value under `id` out.
    pub fn remove(&mut self, id: u64) -> (r: Option<V>)
        ensures
            final(self).map() == old(self).map().remove(id),
            match r {
                Some(v) => old(self).map().contains_key(id) && v == old(self).map()[id],
                None => !old(self).map().contains_key(id),
            },
    {
        proof {
            use_type_invariant(&*self);
        }
        let mut entries: Vec<(u64, V)> = Vec::new();
        std::mem::swap(&mut entries, &mut self.entries);
        let ghost before = entries@;
        let r = match find_id(&entries, id) {
            Some(i) => {
                proof {
                    lemma_key_index(before, i as int);
                    lemma_remove(before, i as int);
                }
                let (_, v) = entries.remove(i);
                Some(v)
            },
            None => {
                assert(to_map(before).remove(id) =~= to_map(before));
                None
            },
        };
        self.entries = entries;
        r
    }
}

} // verus!
