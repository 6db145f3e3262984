//! The node of the process-id runtime: process ids, exit messages, and the
//! subscriber lists of node-wide publishing.
use vstd::prelude::*;
use crate::speare::pubsub::keep_flagged;
use crate::keyed::{has_key, keys_distinct, lemma_key_index, lemma_push, lemma_update, to_map};
use crate::type_ids::same_type;
use std::any::TypeId;

verus! {

/// A message on a process's exit channel: the exit signal to act on, or a
/// monitor to notify when the process exits.
pub enum ExitMessage<U, S> {
    Exit(U),
    StoreMonitor(S),
}

/// What a running process does after a message on its exit channel.
pub enum ExitStep<U, S> {
    /// Keep running.
    Continue,
    /// Run the exit hook, pass `signal` through every monitor in `monitors`,
    /// in order, and stop.
    Exit { signal: U, monitors: Vec<S> },
}

/// Decides on a message from the exit channel (`None` when the channel is
/// closed, which is ignored): a monitor is stored, and an exit signal ends the
/// process, handing over the monitors stored so far.
pub fn exit_step<U, S>(monitors: &mut Vec<S>, msg: Option<ExitMessage<U, S>>) -> (r: ExitStep<U, S>)
    ensures
        match msg {
            None => r is Continue && final(monitors)@ == old(monitors)@,
            Some(ExitMessage::StoreMonitor(s)) => r is Continue && final(monitors)@ == old(monitors)@.push(s),
            Some(ExitMessage::Exit(u)) => r matches ExitStep::Exit { signal, monitors: m } && signal == u && m@
                == old(monitors)@ && final(monitors)@.len() == 0,
        },
{
    match msg {
        None => ExitStep::Continue,
        Some(ExitMessage::StoreMonitor(s)) => {
            monitors.push(s);
            ExitStep::Continue
        },
        Some(ExitMessage::Exit(u)) => {
            let mut all: Vec<S> = Vec::new();
            std::mem::swap(&mut all, monitors);
            ExitStep::Exit { signal: u, monitors: all }
        },
    }
}

/// Hands out the next process id, counting from the current one.
pub fn allocate_pid(count: &mut u32) -> (id: u32)
    requires
        *old(count) < u32::MAX,
    ensures
        id == *old(count),
        *final(count) == *old(count) + 1,
{
    let id = *count;
    *count = *count + 1;
    id
}

/// Flags negated.
pub open spec fn negated(flags: Seq<bool>) -> Seq<bool> {
    flags.map_values(|b: bool| !b)
}

/// Drops the subscribers whose channel was found disconnected while publishing
/// (`disconnected[i]` tells of the `i`-th); the others stay, in order.
pub fn prune_disconnected<S>(subs: &mut Vec<S>, disconnected: &Vec<bool>)
    requires
        disconnected@.len() == old(subs)@.len(),
    ensures
        final(subs)@ == keep_flagged(old(subs)@, negated(disconnected@)),
{
    let ghost initial = subs@;
    let mut taken: Vec<S> = Vec::new();
    std::mem::swap(&mut taken, subs);
    let mut i: usize = 0;
    let n = disconnected.len();
    let mut kept: Vec<S> = Vec::new();
    while i < n
        invariant
            0 <= i <= initial.len(),
            n == initial.len(),
            disconnected@.len() == initial.len(),
            taken@ == initial.subrange(i as int, initial.len() as int),
            kept@ == keep_flagged(initial.subrange(0, i as int), negated(disconnected@).take(i as int)),
        decreases n - i,
    {
        let s = taken.remove(0);
        proof {
            let pre = initial.subrange(0, i as int);
            assert(initial.subrange(0, i + 1).drop_last() =~= pre);
            assert(negated(disconnected@).take(i + 1).take(i as int) =~= negated(disconnected@).take(i as int));
            assert(initial.subrange(0, i + 1).last() == s);
            assert(negated(disconnected@).take(i + 1).last() == !disconnected@[i as int]);
        }
        if !disconnected[i] {
            kept.push(s);
        }
        i = i + 1;
    }
    proof {
        assert(initial.subrange(0, initial.len() as int) =~= initial);
        assert(negated(disconnected@).take(initial.len() as int) =~= negated(disconnected@));
    }
    *subs = kept;
}

/// With no disconnected subscriber, publishing keeps every subscriber, in order.
pub proof fn law_all_connected_keeps_all<S>(subs: Seq<S>, flags: Seq<bool>)
    requires
        flags.len() == subs.len(),
        forall|i: int| 0 <= i < flags.len() ==> !#[trigger] flags[i],
    ensures
        keep_flagged(subs, negated(flags)) =~= subs,
    decreases subs.len(),
{
    if subs.len() > 0 {
        let f2 = flags.take(flags.len() - 1);
        assert forall|i: int| 0 <= i < f2.len() implies !#[trigger] f2[i] by {
            assert(f2[i] == flags[i]);
        }
        law_all_connected_keeps_all(subs.drop_last(), f2);
        assert(negated(flags).take(negated(flags).len() - 1) =~= negated(f2));
        assert(negated(flags).last() == !flags[flags.len() - 1]);
        assert(subs.drop_last().push(subs.last()) =~= subs);
    }
}

/// Publishing never adds subscribers: every one kept was there before.
pub proof fn law_pruning_only_removes<S>(subs: Seq<S>, flags: Seq<bool>, x: S)
    requires
        flags.len() == subs.len(),
        keep_flagged(subs, flags).contains(x),
    ensures
        subs.contains(x),
    decreases subs.len(),
{
    if subs.len() > 0 {
        let rest = keep_flagged(subs.drop_last(), flags.take(flags.len() - 1));
        if flags.last() && x == subs.last() {
            assert(subs[subs.len() - 1] == x);
        } else {
            if flags.last() {
                let i = choose|i: int| 0 <= i < keep_flagged(subs, flags).len() && keep_flagged(subs, flags)[i] == x;
                assert(i < rest.len());
                assert(rest[i] == x);
            }
            assert(rest.contains(x));
            law_pruning_only_removes(subs.drop_last(), flags.take(flags.len() - 1), x);
            let j = choose|j: int| 0 <= j < subs.drop_last().len() && subs.drop_last()[j] == x;
            assert(subs[j] == x);
        }
    }
}

/// The subscribers of node-wide publishing, by message type: each type's
/// subscribers in the order they subscribed.
pub struct TypeSubscribers<S> {
    entries: Vec<(TypeId, Vec<S>)>,
}

fn find_type<S>(entries: &Vec<(TypeId, Vec<S>)>, t: &TypeId) -> (r: Option<usize>)
    ensures
        match r {
            Some(i) => i < entries@.len() && entries@[i as int].0 == *t,
            None => !has_key(entries@, *t),
        },
{
    let mut i: usize = 0;
    while i < entries.len()
        invariant
            i <= entries@.len(),
            forall|j: int| 0 <= j < i ==> #[trigger] entries@[j].0 != *t,
        decreases entries@.len() - i,
    {
        if same_type(&entries[i].0, t) {
            return Some(i);
        }
        i = i + 1;
    }
    None
}

impl<S> TypeSubscribers<S> {
    /// No message type occurs twice.
    #[verifier::type_invariant]
    closed spec fn inv(&self) -> bool {
        keys_distinct(self.entries@)
    }

    /// The subscribers of messages of type `t`, in the order they subscribed.
    pub closed spec fn subs_of(&self, t: TypeId) -> Seq<S> {
        if to_map(self.entries@).contains_key(t) {
            to_map(self.entries@)[t]@
        } else {
            Seq::empty()
        }
    }

    pub fn new() -> (r: Self)
        ensures
            forall|t: TypeId| #[trigger] r.subs_of(t) == Seq::<S>::empty(),
    {
        TypeSubscribers { entries: Vec::new() }
    }

    /// Subscribes `sub` to messages of type `t`, after its earlier subscribers.
    pub fn subscribe(&mut self, t: TypeId, sub: S)
        ensures
            final(self).subs_of(t) == old(self).subs_of(t).push(sub),
            forall|u: TypeId| u != t ==> #[trigger] final(self).subs_of(u) == old(self).subs_of(u),
    {
        proof {
            use_type_invariant(&*self);
        }
        let mut entries: Vec<(TypeId, Vec<S>)> = Vec::new();
        std::mem::swap(&mut entries, &mut self.entries);
        let ghost before = entries@;
        match find_type(&entries, &t) {
            Some(i) => {
                proof {
                    lemma_key_index(before, i as int);
                }
                let (k, mut subs) = entries.remove(i);
                subs.push(sub);
                entries.insert(i, (k, subs));
                proof {
                    assert(entries@ =~= before.update(i as int, (before[i as int].0, subs)));
                    lemma_update(before, i as int, subs);
                }
            },
            None => {
                let mut subs: Vec<S> = Vec::new();
                subs.push(sub);
                entries.push((t, subs));
                proof {
                    lemma_push(before, t, subs);
                    assert(subs@ =~= Seq::<S>::empty().push(sub));
                }
            },
        }
        self.entries = entries;
    }

    /// The subscribers of messages of type `t`; `None` when there are none yet.
    pub fn get(&self, t: &TypeId) -> (r: Option<&Vec<S>>)
        ensures
            match r {
                Some(subs) => subs@ == self.subs_of(*t),
                None => self.subs_of(*t) == Seq::<S>::empty(),
            },
    {
        proof {
            use_type_invariant(self);
        }
        match find_type(&self.entries, t) {
            Some(i) => {
                proof {
                    lemma_key_index(self.entries@, i as int);
                }
                Some(&self.entries[i].1)
            },
            None => None,
        }
    }

    /// Drops the subscribers of type `t` whose channel was found disconnected
    /// while publishing (`disconnected[i]` tells of the `i`-th); the others
    /// stay, in order, and other types are untouched.
    pub fn prune(&mut self, t: &TypeId, disconnected: &Vec<bool>)
        requires
            disconnected@.len() == old(self).subs_of(*t).len(),
        ensures
            final(self).subs_of(*t) == keep_flagged(old(self).subs_of(*t), negated(disconnected@)),
            forall|u: TypeId| u != *t ==> #[trigger] final(self).subs_of(u) == old(self).subs_of(u),
    {
        proof {
            use_type_invariant(&*self);
        }
        let mut entries: Vec<(TypeId, Vec<S>)> = Vec::new();
        std::mem::swap(&mut entries, &mut self.entries);
        let ghost before = entries@;
        match find_type(&entries, t) {
            Some(i) => {
                proof {
                    lemma_key_index(before, i as int);
                }
                let (k, mut subs) = entries.remove(i);
                prune_disconnected(&mut subs, disconnected);
                entries.insert(i, (k, subs));
                proof {
                    assert(entries@ =~= before.update(i as int, (before[i as int].0, subs)));
                    lemma_update(before, i as int, subs);
                }
            },
            None => {},
        }
        self.entries = entries;
    }
}

} // verus!
