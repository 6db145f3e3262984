//! Tables of values under distinct string names, read as maps from the names' text.
use vstd::prelude::*;
use crate::keyed::{has_key, keys_distinct, lemma_empty, lemma_key_index, lemma_push, lemma_remove, lemma_update, to_map};

verus! {

/// The list with each name taken by its text.
pub open spec fn by_text<V>(s: Seq<(String, V)>) -> Seq<(Seq<char>, V)> {
    s.map_values(|e: (String, V)| (e.0@, e.1))
}

/// Values under distinct names.
pub struct NameTable<V> {
    entries: Vec<(String, V)>,
}

/// Finds the position of a name.
fn find_name<V>(entries: &Vec<(String, V)>, name: &String) -> (r: Option<usize>)
    ensures
        match r {
            Some(i) => i < entries@.len() && entries@[i as int].0@ == name@,
            None => !has_key(by_text(entries@), name@),
        },
{
    let mut i: usize = 0;
    while i < entries.len()
        invariant
            i <= entries@.len(),
            forall|j: int| 0 <= j < i ==> (#[trigger] entries@[j]).0@ != name@,
        decreases entries@.len() - i,
    {
        if entries[i].0 == *name {
            return Some(i);
        }
        i = i + 1;
    }
    proof {
        let s = by_text(entries@);
        if has_key(s, name@) {
            let j = choose|j: int| 0 <= j < s.len() && #[trigger] s[j].0 == name@;
            assert(s[j].0 == entries@[j].0@);
        }
    }
    None
}

impl<V> NameTable<V> {
    /// The entries, names taken by their text.
    pub closed spec fn entries_seq(&self) -> Seq<(Seq<char>, V)> {
        by_text(self.entries@)
    }

    /// The table as a map from name text.
    pub open spec fn map(&self) -> Map<Seq<char>, V> {
        to_map(self.entries_seq())
    }

    #[verifier::type_invariant]
    closed spec fn inv(&self) -> bool {
        keys_distinct(by_text(self.entries@))
    }

    pub fn new() -> (t: Self)
        ensures
            t.map() == Map::<Seq<char>, V>::empty(),
    {
        let entries: Vec<(String, V)> = Vec::new();
        proof {
            lemma_empty::<Seq<char>, V>();
            assert(by_text(entries@) =~= Seq::<(Seq<char>, V)>::empty());
        }
        NameTable { entries }
    }

    /// The number of names in the table.
    pub fn len(&self) -> (n: usize)
        ensures
            n == self.map().len(),
    {
        proof {
            use_type_invariant(self);
            crate::keyed::lemma_map_len(self.entries_seq());
        }
        self.entries.len()
    }

    /// Whether a name is taken.
    pub fn contains(&self, name: &String) -> (r: bool)
        ensures
            r == self.map().contains_key(name@),
    {
        proof {
            use_type_invariant(self);
        }
        match find_name(&self.entries, name) {
            Some(i) => {
                proof {
                    lemma_key_index(self.entries_seq(), i as int);
                }
                true
            },
            None => false,
        }
    }

    /// The value under a name.
    pub fn get(&self, name: &String) -> (r: Option<&V>)
        ensures
            match r {
                Some(v) => self.map().contains_key(name@) && *v == self.map()[name@],
                None => !self.map().contains_key(name@),
            },
    {
        proof {
            use_type_invariant(self);
        }
        match find_name(&self.entries, name) {
            Some(i) => {
                proof {
                    lemma_key_index(self.entries_seq(), i as int);
                }
                Some(&self.entries[i].1)
            },
            None => None,
        }
    }

    /// Puts `value` under `name`, replacing what the name held.
    pub fn insert(&mut self, name: String, value: V)
        ensures
            final(self).map() == old(self).map().insert(name@, value),
    {
        proof {
            use_type_invariant(&*self);
        }
        let mut entries: Vec<(String, V)> = Vec::new();
        std::mem::swap(&mut entries, &mut self.entries);
        let ghost before = entries@;
        match find_name(&entries, &name) {
            Some(i) => {
                proof {
                    lemma_update(by_text(before), i as int, value);
                }
                entries.set(i, (name, value));
                proof {
                    assert(by_text(entries@) =~= by_text(before).update(
                        i as int,
                        (by_text(before)[i as int].0, value),
                    ));
                }
            },
            None => {
                let ghost key = name@;
                proof {
                    lemma_push(by_text(before), key, value);
                }
                entries.push((name, value));
                proof {
                    assert(by_text(entries@) =~= by_text(before).push((key, value)));
                }
            },
        }
        self.entries = entries;
    }

    /// Takes the value under a name out of the table.
    pub fn remove(&mut self, name: &String) -> (r: Option<V>)
        ensures
            final(self).map() == old(self).map().remove(name@),
            match r {
                Some(v) => old(self).map().contains_key(name@) && v == old(self).map()[name@],
                None => !old(self).map().contains_key(name@),
            },
    {
        proof {
            use_type_invariant(&*self);
        }
        let mut entries: Vec<(String, V)> = Vec::new();
        std::mem::swap(&mut entries, &mut self.entries);
        let ghost before = entries@;
        let r = match find_name(&entries, name) {
            Some(i) => {
                proof {
                    lemma_key_index(by_text(before), i as int);
                    lemma_remove(by_text(before), i as int);
                }
                let (_, v) = entries.remove(i);
                proof {
                    assert(by_text(entries@) =~= by_text(before).remove(i as int));
                }
                Some(v)
            },
            None => {
                assert(to_map(by_text(before)).remove(name@) =~= to_map(by_text(before)));
                None
            },
        };
        self.entries = entries;
        r
    }
}

} // verus!
