//! The table of a parent's children: each child is known by a numeric id and
//! reached through a value of type `C` (its control channel, in a running system).
use vstd::prelude::*;
use crate::keyed::{find_id, keys_distinct, lemma_empty, lemma_key_index, lemma_push, lemma_remove, lemma_update, to_map, values_of};

verus! {

/// Children by id, with the counter from which new ids are drawn.
pub struct ChildTable<C> {
    total_children: u64,
    children: Vec<(u64, C)>,
}

/// Records `child` under `id` in a list with distinct ids, replacing what the id held.
fn insert_entry<C>(entries: &mut Vec<(u64, C)>, id: u64, child: C)
    requires
        keys_distinct(old(entries)@),
    ensures
        keys_distinct(final(entries)@),
        final(entries)@.len() <= old(entries)@.len() + 1,
        to_map(final(entries)@) == to_map(old(entries)@).insert(id, child),
{
    match find_id(entries, id) {
        Some(i) => {
            proof {
                lemma_update(entries@, i as int, child);
            }
            entries.set(i, (id, child));
        },
        None => {
            proof {
                lemma_push(entries@, id, child);
            }
            entries.push((id, child));
        },
    }
}

/// Takes the entry with `id` out of a list with distinct ids.
fn remove_entry<C>(entries: &mut Vec<(u64, C)>, id: u64) -> (r: Option<C>)
    requires
        keys_distinct(old(entries)@),
    ensures
        keys_distinct(final(entries)@),
        to_map(final(entries)@) == to_map(old(entries)@).remove(id),
        final(entries)@.len() == if to_map(old(entries)@).contains_key(id) {
            old(entries)@.len() - 1
        } else {
            old(entries)@.len() as int
        },
        match r {
            Some(c) => to_map(old(entries)@).contains_key(id) && c == to_map(old(entries)@)[id],
            None => !to_map(old(entries)@).contains_key(id),
        },
{
    match find_id(entries, id) {
        Some(i) => {
            proof {
                lemma_key_index(entries@, i as int);
                lemma_remove(entries@, i as int);
            }
            let (_, c) = entries.remove(i);
            Some(c)
        },
        None => {
            assert(to_map(entries@).remove(id) =~= to_map(entries@));
            None
        },
    }
}

/// Moves the values of a list out, in order.
fn drain_values<C>(entries: Vec<(u64, C)>) -> (r: Vec<C>)
    ensures
        r@ == values_of(entries@),
{
    let ghost initial = entries@;
    let mut out: Vec<C> = Vec::new();
    let mut rest = entries;
    while rest.len() > 0
        invariant
            rest@.len() + out@.len() == initial.len(),
            forall|i: int| 0 <= i < out@.len() ==> #[trigger] out@[i] == initial[i].1,
            rest@ == initial.subrange(out@.len() as int, initial.len() as int),
        decreases rest@.len(),
    {
        let e = rest.remove(0);
        out.push(e.1);
    }
    assert(out@ =~= values_of(initial));
    out
}

impl<C> ChildTable<C> {
    /// The children, in the order in which they are visited.
    pub closed spec fn entries(&self) -> Seq<(u64, C)> {
        self.children@
    }

    /// The counter of children, from which the next id is drawn.
    pub closed spec fn total(&self) -> u64 {
        self.total_children
    }

    /// The children as a map from id.
    pub open spec fn children_map(&self) -> Map<u64, C> {
        to_map(self.entries())
    }

    /// No id occurs twice, and the counter is at least the number of children.
    pub open spec fn wf(&self) -> bool {
        &&& keys_distinct(self.entries())
        &&& self.entries().len() <= self.total()
    }

    #[verifier::type_invariant]
    closed spec fn inv(&self) -> bool {
        self.wf()
    }

    pub fn new() -> (t: Self)
        ensures
            t.total() == 0,
            t.entries() == Seq::<(u64, C)>::empty(),
            t.children_map() == Map::<u64, C>::empty(),
    {
        proof {
            lemma_empty::<u64, C>();
        }
        ChildTable { total_children: 0, children: Vec::new() }
    }

    /// The current value of the counter.
    pub fn total_children(&self) -> (n: u64)
        ensures
            n == self.total(),
    {
        self.total_children
    }

    /// The number of children in the table.
    pub fn len(&self) -> (n: usize)
        ensures
            n == self.entries().len(),
            n == self.children_map().len(),
    {
        proof {
            use_type_invariant(self);
            crate::keyed::lemma_map_len(self.entries());
        }
        self.children.len()
    }

    /// The children, in the order in which they are visited.
    pub fn entries_vec(&self) -> (r: &Vec<(u64, C)>)
        ensures
            r@ == self.entries(),
    {
        &self.children
    }

    /// Looks a child up by id.
    pub fn get(&self, id: u64) -> (r: Option<&C>)
        ensures
            match r {
                Some(c) => self.children_map().contains_key(id) && *c == self.children_map()[id],
                None => !self.children_map().contains_key(id),
            },
    {
        proof {
            use_type_invariant(self);
        }
        match find_id(&self.children, id) {
            Some(i) => {
                proof {
                    lemma_key_index(self.entries(), i as int);
                }
                Some(&self.children[i].1)
            },
            None => None,
        }
    }

    /// Counts a new child and records it under the next id, which it returns.
    /// The id is the new value of the counter; a child already recorded under
    /// that id is replaced.
    pub fn add_child(&mut self, child: C) -> (id: u64)
        requires
            old(self).total() < u64::MAX,
        ensures
            id == old(self).total() + 1,
            final(self).total() == id,
            final(self).children_map() == old(self).children_map().insert(id, child),
    {
        proof {
            use_type_invariant(&*self);
        }
        let mut entries: Vec<(u64, C)> = Vec::new();
        std::mem::swap(&mut entries, &mut self.children);
        self.total_children = self.total_children + 1;
        let id = self.total_children;
        insert_entry(&mut entries, id, child);
        self.children = entries;
        id
    }

    /// Takes a child out of the table, leaving the counter as it is.
    pub fn remove(&mut self, id: u64) -> (r: Option<C>)
        ensures
            final(self).total() == old(self).total(),
            final(self).children_map() == old(self).children_map().remove(id),
            match r {
                Some(c) => old(self).children_map().contains_key(id) && c == old(self).children_map()[id],
                None => !old(self).children_map().contains_key(id),
            },
    {
        proof {
            use_type_invariant(&*self);
        }
        let mut entries: Vec<(u64, C)> = Vec::new();
        std::mem::swap(&mut entries, &mut self.children);
        let r = remove_entry(&mut entries, id);
        self.children = entries;
        r
    }

    /// A child terminated: it leaves the table and, if it was there, the
    /// counter goes down by one.
    pub fn child_terminated(&mut self, id: u64)
        ensures
            final(self).children_map() == old(self).children_map().remove(id),
            final(self).total() == if old(self).children_map().contains_key(id) {
                (old(self).total() - 1) as u64
            } else {
                old(self).total()
            },
    {
        proof {
            use_type_invariant(&*self);
        }
        let mut entries: Vec<(u64, C)> = Vec::new();
        std::mem::swap(&mut entries, &mut self.children);
        let r = remove_entry(&mut entries, id);
        if r.is_some() {
            self.total_children = self.total_children - 1;
        }
        self.children = entries;
    }

    /// Takes every child out of the table, in visiting order; the counter stays.
    pub fn take_all(&mut self) -> (r: Vec<C>)
        ensures
            final(self).total() == old(self).total(),
            final(self).entries() == Seq::<(u64, C)>::empty(),
            final(self).children_map() == Map::<u64, C>::empty(),
            r@ == values_of(old(self).entries()),
    {
        let mut entries: Vec<(u64, C)> = Vec::new();
        std::mem::swap(&mut entries, &mut self.children);
        proof {
            lemma_empty::<u64, C>();
        }
        drain_values(entries)
    }

    /// Empties the table and sets the counter back to zero.
    pub fn clear_all(&mut self) -> (r: Vec<C>)
        ensures
            final(self).total() == 0,
            final(self).entries() == Seq::<(u64, C)>::empty(),
            final(self).children_map() == Map::<u64, C>::empty(),
            r@ == values_of(old(self).entries()),
    {
        let r = self.take_all();
        self.total_children = 0;
        r
    }
}

/// A new child's id is fresh whenever no recorded id exceeds the counter (as holds
/// while no child has terminated): the child then replaces nobody.
pub proof fn law_new_id_is_fresh<C>(t: ChildTable<C>)
    requires
        t.total() < u64::MAX,
        forall|id: u64| #[trigger] t.children_map().contains_key(id) ==> id <= t.total(),
    ensures
        !t.children_map().contains_key((t.total() + 1) as u64),
{
}

/// Adding a child never lowers the counter's bound on the recorded ids.
pub proof fn law_ids_stay_bounded<C>(t: ChildTable<C>, after: ChildTable<C>, child: C)
    requires
        t.total() < u64::MAX,
        forall|id: u64| #[trigger] t.children_map().contains_key(id) ==> id <= t.total(),
        after.total() == t.total() + 1,
        after.children_map() == t.children_map().insert(after.total(), child),
    ensures
        forall|id: u64| #[trigger] after.children_map().contains_key(id) ==> id <= after.total(),
{
}

} // verus!
