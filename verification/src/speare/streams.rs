//! Message sources of an actor: a set of streams merged in priority order.
use vstd::prelude::*;
use std::marker::PhantomData;

verus! {

/// A chain of message sources; sources added earlier are polled first.
pub struct SourceSet<S>(S);

/// Two sources, `a` polled before `b`.
pub struct Merge<A, B> {
    pub a: A,
    pub b: B,
}

/// A source that never yields.
pub struct NoStream<T>(pub PhantomData<T>);

impl<M> SourceSet<NoStream<M>> {
    /// An empty set of sources.
    pub fn new() -> (r: Self)
        ensures
            r.inner() == NoStream::<M>(PhantomData),
    {
        SourceSet(NoStream(PhantomData))
    }
}

impl<M> Default for SourceSet<NoStream<M>> {
    fn default() -> (r: Self)
        ensures
            r.inner() == NoStream::<M>(PhantomData),
    {
        Self::new()
    }
}

impl<S> SourceSet<S> {
    /// The chain of sources.
    pub closed spec fn inner(&self) -> S {
        self.0
    }

    /// Adds a stream after the sources already in the set.
    pub fn stream<S2>(self, stream: S2) -> (r: SourceSet<Merge<S, S2>>)
        ensures
            r.inner() == (Merge { a: self.inner(), b: stream }),
    {
        SourceSet(Merge { a: self.0, b: stream })
    }

    /// Gives the chain of sources back.
    pub fn into_inner(self) -> (r: S)
        ensures
            r == self.inner(),
    {
        self.0
    }
}

/// The outcome of polling a source once.
#[derive(Debug)]
pub enum Polled<T> {
    Item(T),
    /// The source is exhausted.
    Finished,
    Pending,
}

/// After the first source of a merge was polled: yield its item, or poll the second.
#[derive(Debug)]
pub enum MergeStep<T> {
    Yield(T),
    PollSecond { first_finished: bool },
}

/// What a merge yields, given what its two sources yield; the second source is
/// consulted only when the first has no item.
pub open spec fn merged<T>(a: Polled<T>, b: Polled<T>) -> Polled<T> {
    match a {
        Polled::Item(x) => Polled::Item(x),
        Polled::Finished => b,
        Polled::Pending => match b {
            Polled::Item(y) => Polled::Item(y),
            _ => Polled::Pending,
        },
    }
}

/// Decides on the first source's outcome.
pub fn merge_first<T>(a: Polled<T>) -> (r: MergeStep<T>)
    ensures
        match a {
            Polled::Item(x) => r == MergeStep::Yield(x),
            Polled::Finished => r == MergeStep::<T>::PollSecond { first_finished: true },
            Polled::Pending => r == MergeStep::<T>::PollSecond { first_finished: false },
        },
{
    match a {
        Polled::Item(x) => MergeStep::Yield(x),
        Polled::Finished => MergeStep::PollSecond { first_finished: true },
        Polled::Pending => MergeStep::PollSecond { first_finished: false },
    }
}

/// Decides on the second source's outcome, once the first had no item.
pub fn merge_second<T>(first_finished: bool, b: Polled<T>) -> (r: Polled<T>)
    ensures
        r == merged(if first_finished { Polled::<T>::Finished } else { Polled::<T>::Pending }, b),
{
    if first_finished {
        b
    } else {
        match b {
            Polled::Item(y) => Polled::Item(y),
            _ => Polled::Pending,
        }
    }
}

/// A merge is exhausted only when both its sources are.
pub proof fn law_merge_finishes_with_both<T>(a: Polled<T>, b: Polled<T>)
    ensures
        merged(a, b) is Finished <==> (a is Finished && b is Finished),
{
}

/// An item of the first source always wins over the second; an item of the
/// second comes through whenever the first has none.
pub proof fn law_merge_priority<T>(a: Polled<T>, b: Polled<T>)
    ensures
        a is Item ==> merged(a, b) == a,
        !(a is Item) && b is Item ==> merged(a, b) == b,
{
}

/// The items among successive poll outcomes, in order.
pub open spec fn items_of<T>(polls: Seq<Polled<T>>) -> Seq<T>
    decreases polls.len(),
{
    if polls.len() == 0 {
        Seq::empty()
    } else {
        let earlier = items_of(polls.drop_last());
        match polls.last() {
            Polled::Item(x) => earlier.push(x),
            _ => earlier,
        }
    }
}

/// What a merge yields over successive polls, given what its first source
/// yields at each poll (`a`) and what its second yields when consulted (`b`).
pub open spec fn merge_polls<T>(a: Seq<Polled<T>>, b: Seq<Polled<T>>) -> Seq<Polled<T>> {
    Seq::new(a.len(), |i: int| merged(a[i], b[i]))
}

/// A stream added to a set whose earlier sources yield nothing (such as a new
/// set) comes through whole: over any number of polls, the set yields exactly
/// the stream's items, in order, none lost and none repeated.
pub proof fn law_added_stream_comes_through<T>(a: Seq<Polled<T>>, b: Seq<Polled<T>>)
    requires
        a.len() == b.len(),
        forall|i: int| 0 <= i < a.len() ==> !(#[trigger] a[i] is Item),
    ensures
        items_of(merge_polls(a, b)) == items_of(b),
    decreases a.len(),
{
    if a.len() > 0 {
        let n = a.len() - 1;
        assert(merge_polls(a, b).drop_last() =~= merge_polls(a.drop_last(), b.drop_last()));
        assert forall|i: int| 0 <= i < a.drop_last().len() implies !(#[trigger] a.drop_last()[i] is Item) by {
            assert(a.drop_last()[i] == a[i]);
        }
        law_added_stream_comes_through(a.drop_last(), b.drop_last());
        assert(!(a[n] is Item));
        assert(merge_polls(a, b).last() == merged(a[n], b[n]));
    }
}

/// Adding a stream keeps every item of the sources already in the set: while
/// the added stream yields nothing, the set yields exactly the earlier sources'
/// items, in order.
pub proof fn law_added_stream_keeps_earlier_items<T>(a: Seq<Polled<T>>, b: Seq<Polled<T>>)
    requires
        a.len() == b.len(),
        forall|i: int| 0 <= i < b.len() ==> !(#[trigger] b[i] is Item),
    ensures
        items_of(merge_polls(a, b)) == items_of(a),
    decreases a.len(),
{
    if a.len() > 0 {
        let n = a.len() - 1;
        assert(merge_polls(a, b).drop_last() =~= merge_polls(a.drop_last(), b.drop_last()));
        assert forall|i: int| 0 <= i < b.drop_last().len() implies !(#[trigger] b.drop_last()[i] is Item) by {
            assert(b.drop_last()[i] == b[i]);
        }
        law_added_stream_keeps_earlier_items(a.drop_last(), b.drop_last());
        assert(!(b[n] is Item));
        assert(merge_polls(a, b).last() == merged(a[n], b[n]));
    }
}

} // verus!
