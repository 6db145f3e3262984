//! Topics: each carries one message type and a list of subscribers.
use vstd::prelude::*;
use std::any::TypeId;
use crate::named::NameTable;
use crate::type_ids::same_type;
use crate::speare::lifecycle::CtxCore;

verus! {

/// A subscriber: its id, and the function that delivers a message to it.
pub struct Subscriber<F> {
    pub id: u64,
    pub send_fn: F,
}

/// A topic's message type and its subscribers, in order of subscription.
pub struct TopicEntry<F> {
    pub type_id: TypeId,
    pub subscribers: Vec<Subscriber<F>>,
}

/// All topics, and the id the next subscriber gets.
pub struct PubSub<F> {
    next_sub_id: u64,
    topics: NameTable<TopicEntry<F>>,
}

#[derive(Debug)]
pub enum PubSubError {
    TypeMismatch { topic: String },
    PoisonErr,
}

impl PubSubError {
    /// The error's message.
    pub fn message(&self) -> (r: String)
        ensures
            self matches PubSubError::TypeMismatch { topic } ==> r@ == "pub/sub topic type mismatch for topic: "@
                + topic@,
            self is PoisonErr ==> r@ == "pub/sub lock poisoned"@,
    {
        match self {
            PubSubError::TypeMismatch { topic } => {
                let mut s = String::from_str("pub/sub topic type mismatch for topic: ");
                s.append(topic.as_str());
                s
            },
            PubSubError::PoisonErr => {
                proof {
                    reveal_strlit("pub/sub lock poisoned");
                }
                String::from_str("pub/sub lock poisoned")
            },
        }
    }
}

/// The subscriber ids of a list, in order.
pub open spec fn sub_ids<F>(subs: Seq<Subscriber<F>>) -> Seq<u64> {
    subs.map_values(|s: Subscriber<F>| s.id)
}

/// A subscriber list without the subscriber `id`.
pub open spec fn without_id<F>(subs: Seq<Subscriber<F>>, id: u64) -> Seq<Subscriber<F>> {
    subs.filter(|s: Subscriber<F>| s.id != id)
}

/// Subscription records, topics taken by their text.
pub open spec fn sub_records(ids: Seq<(String, u64)>) -> Seq<(Seq<char>, u64)> {
    ids.map_values(|e: (String, u64)| (e.0@, e.1))
}

/// The subscribers of topic `t` that none of the records names.
pub open spec fn kept_subs<F>(subs: Seq<Subscriber<F>>, t: Seq<char>, records: Seq<(Seq<char>, u64)>) -> Seq<
    Subscriber<F>,
> {
    subs.filter(|s: Subscriber<F>| !records.contains((t, s.id)))
}

/// An element is in a sequence with `x` pushed exactly when it is `x` or was
/// in the sequence already.
pub proof fn lemma_push_contains<A>(prev: Seq<A>, x: A, y: A)
    ensures
        prev.push(x).contains(y) <==> (prev.contains(y) || y == x),
{
    if prev.contains(y) {
        let j = choose|j: int| 0 <= j < prev.len() && prev[j] == y;
        assert(prev.push(x)[j] == y);
    }
    if prev.push(x).contains(y) {
        let j = choose|j: int| 0 <= j < prev.len() + 1 && prev.push(x)[j] == y;
        if j < prev.len() {
            assert(prev[j] == y);
        }
    }
    if y == x {
        assert(prev.push(x)[prev.len() as int] == y);
    }
}

/// Filtering twice is filtering once by both conditions.
pub proof fn lemma_filter_filter<A>(s: Seq<A>, p: spec_fn(A) -> bool, q: spec_fn(A) -> bool)
    ensures
        s.filter(p).filter(q) =~= s.filter(|e: A| p(e) && q(e)),
    decreases s.len(),
{
    let pq = |e: A| p(e) && q(e);
    if s.len() == 0 {
        reveal(Seq::filter);
    } else {
        let t = s.drop_last();
        let x = s.last();
        lemma_filter_filter(t, p, q);
        assert(s =~= t.push(x));
        t.lemma_filter_push(x, p);
        t.lemma_filter_push(x, pq);
        if p(x) {
            t.filter(p).lemma_filter_push(x, q);
        }
    }
}

/// The elements whose flag is set, in order.
pub open spec fn keep_flagged<A>(s: Seq<A>, flags: Seq<bool>) -> Seq<A>
    decreases s.len(),
{
    if s.len() == 0 {
        s
    } else {
        let rest = keep_flagged(s.drop_last(), flags.take(flags.len() - 1));
        if flags.last() {
            rest.push(s.last())
        } else {
            rest
        }
    }
}

fn keep_delivered<F>(subs: Vec<Subscriber<F>>, delivered: &Vec<bool>) -> (r: Vec<Subscriber<F>>)
    requires
        delivered@.len() == subs@.len(),
    ensures
        r@ == keep_flagged(subs@, delivered@),
{
    let ghost initial = subs@;
    let mut kept: Vec<Subscriber<F>> = Vec::new();
    let mut rest = subs;
    let mut i: usize = 0;
    let n = delivered.len();
    while i < n
        invariant
            0 <= i <= initial.len(),
            n == initial.len(),
            delivered@.len() == initial.len(),
            rest@ == initial.subrange(i as int, initial.len() as int),
            kept@ == keep_flagged(initial.subrange(0, i as int), delivered@.take(i as int)),
        decreases n - i,
    {
        let s = rest.remove(0);
        proof {
            let pre = initial.subrange(0, i as int);
            assert(initial.subrange(0, i + 1).drop_last() =~= pre);
            assert(delivered@.take(i + 1).take(i as int) =~= delivered@.take(i as int));
            assert(initial.subrange(0, i + 1).last() == s);
        }
        if delivered[i] {
            kept.push(s);
        }
        i = i + 1;
    }
    assert(initial.subrange(0, initial.len() as int) =~= initial);
    assert(delivered@.take(initial.len() as int) =~= delivered@);
    kept
}

fn remove_subscriber<F>(subs: Vec<Subscriber<F>>, id: u64) -> (r: Vec<Subscriber<F>>)
    ensures
        r@ == without_id(subs@, id),
{
    let ghost initial = subs@;
    let mut kept: Vec<Subscriber<F>> = Vec::new();
    let mut rest = subs;
    let ghost mut done: int = 0;
    while rest.len() > 0
        invariant
            0 <= done <= initial.len(),
            rest@ == initial.subrange(done, initial.len() as int),
            kept@ == without_id(initial.subrange(0, done), id),
        decreases rest@.len(),
    {
        let s = rest.remove(0);
        proof {
            let pre = initial.subrange(0, done);
            assert(initial.subrange(0, done + 1) =~= pre.push(initial[done]));
            pre.lemma_filter_push(initial[done], |s: Subscriber<F>| s.id != id);
        }
        if s.id != id {
            kept.push(s);
        }
        proof {
            done = done + 1;
        }
    }
    assert(initial.subrange(0, initial.len() as int) =~= initial);
    kept
}

impl<F> Default for PubSub<F> {
    fn default() -> (r: Self)
        ensures
            r.next_id() == 0,
            r.topics() == Map::<Seq<char>, TopicEntry<F>>::empty(),
    {
        Self::new()
    }
}

impl<F> PubSub<F> {
    /// The topics, by name.
    pub closed spec fn topics(&self) -> Map<Seq<char>, TopicEntry<F>> {
        self.topics.map()
    }

    /// The id the next subscriber gets.
    pub closed spec fn next_id(&self) -> u64 {
        self.next_sub_id
    }

    pub fn new() -> (r: Self)
        ensures
            r.next_id() == 0,
            r.topics() == Map::<Seq<char>, TopicEntry<F>>::empty(),
    {
        PubSub { next_sub_id: 0, topics: NameTable::new() }
    }

    /// The id the next subscriber gets.
    pub fn next_sub_id(&self) -> (r: u64)
        ensures
            r == self.next_id(),
    {
        self.next_sub_id
    }

    /// Subscribes `send_fn` to `topic` for messages of type `type_id`, and returns
    /// the new subscriber's id. Refused when the topic exists with another type.
    pub fn subscribe(&mut self, topic: &str, type_id: TypeId, send_fn: F) -> (r: Result<u64, PubSubError>)
        requires
            old(self).next_id() < u64::MAX,
        ensures
            match r {
                Err(e) => {
                    &&& old(self).topics().contains_key(topic@)
                    &&& old(self).topics()[topic@].type_id != type_id
                    &&& e matches PubSubError::TypeMismatch { topic: t } && t@ == topic@
                    &&& final(self).topics() == old(self).topics()
                    &&& final(self).next_id() == old(self).next_id()
                },
                Ok(id) => {
                    &&& old(self).topics().contains_key(topic@) ==> old(self).topics()[topic@].type_id == type_id
                    &&& id == old(self).next_id()
                    &&& final(self).next_id() == old(self).next_id() + 1
                    &&& final(self).topics().dom() == old(self).topics().dom().insert(topic@)
                    &&& forall|t: Seq<char>|
                        t != topic@ && #[trigger] old(self).topics().contains_key(t) ==> final(self).topics()[t]
                            == old(self).topics()[t]
                    &&& final(self).topics()[topic@].type_id == type_id
                    &&& final(self).topics()[topic@].subscribers@ == if old(self).topics().contains_key(topic@) {
                        old(self).topics()[topic@].subscribers@
                    } else {
                        Seq::<Subscriber<F>>::empty()
                    }.push(Subscriber { id, send_fn })
                },
            },
    {
        let name = topic.to_owned();
        let existing = self.topics.remove(&name);
        let mut entry = match existing {
            Some(e) => {
                if !same_type(&e.type_id, &type_id) {
                    self.topics.insert(name, e);
                    proof {
                        assert(self.topics() =~= old(self).topics());
                    }
                    return Err(PubSubError::TypeMismatch { topic: topic.to_owned() });
                }
                e
            },
            None => TopicEntry { type_id, subscribers: Vec::new() },
        };
        let id = self.next_sub_id;
        self.next_sub_id = self.next_sub_id + 1;
        entry.subscribers.push(Subscriber { id, send_fn });
        self.topics.insert(name, entry);
        Ok(id)
    }

    /// The subscribers a message of type `type_id` published to `topic` goes to:
    /// none when the topic does not exist; refused when it carries another type.
    pub fn subscribers_for(&self, topic: &str, type_id: &TypeId) -> (r: Result<Option<&Vec<Subscriber<F>>>, PubSubError>)
        ensures
            match r {
                Ok(None) => !self.topics().contains_key(topic@),
                Ok(Some(subs)) => {
                    &&& self.topics().contains_key(topic@)
                    &&& self.topics()[topic@].type_id == *type_id
                    &&& *subs == self.topics()[topic@].subscribers
                },
                Err(e) => {
                    &&& self.topics().contains_key(topic@)
                    &&& self.topics()[topic@].type_id != *type_id
                    &&& e matches PubSubError::TypeMismatch { topic: t } && t@ == topic@
                },
            },
    {
        let name = topic.to_owned();
        match self.topics.get(&name) {
            None => Ok(None),
            Some(entry) => {
                if same_type(&entry.type_id, type_id) {
                    Ok(Some(&entry.subscribers))
                } else {
                    Err(PubSubError::TypeMismatch { topic: topic.to_owned() })
                }
            },
        }
    }

    /// Takes subscriber `sub_id` off `topic`; other topics stay as they are.
    pub fn unsubscribe(&mut self, topic: &String, sub_id: u64)
        ensures
            final(self).next_id() == old(self).next_id(),
            final(self).topics().dom() == old(self).topics().dom(),
            forall|t: Seq<char>|
                t != topic@ && #[trigger] old(self).topics().contains_key(t) ==> final(self).topics()[t]
                    == old(self).topics()[t],
            old(self).topics().contains_key(topic@) ==> {
                &&& final(self).topics()[topic@].type_id == old(self).topics()[topic@].type_id
                &&& final(self).topics()[topic@].subscribers@ == without_id(
                    old(self).topics()[topic@].subscribers@,
                    sub_id,
                )
            },
    {
        match self.topics.remove(topic) {
            Some(entry) => {
                let TopicEntry { type_id, subscribers } = entry;
                let kept = remove_subscriber(subscribers, sub_id);
                self.topics.insert(topic.clone(), TopicEntry { type_id, subscribers: kept });
                proof {
                    assert(self.topics().dom() =~= old(self).topics().dom());
                }
            },
            None => {
                proof {
                    assert(self.topics() =~= old(self).topics());
                }
            },
        }
    }

    /// Keeps, of the subscribers of `topic`, those whose delivery succeeded:
    /// `delivered[i]` tells of the `i`-th subscriber.
    pub fn retain_delivered(&mut self, topic: &str, delivered: &Vec<bool>)
        requires
            old(self).topics().contains_key(topic@) ==> delivered@.len() == old(self).topics()[topic@].subscribers@.len(),
        ensures
            final(self).next_id() == old(self).next_id(),
            final(self).topics().dom() == old(self).topics().dom(),
            forall|t: Seq<char>|
                t != topic@ && #[trigger] old(self).topics().contains_key(t) ==> final(self).topics()[t]
                    == old(self).topics()[t],
            old(self).topics().contains_key(topic@) ==> {
                &&& final(self).topics()[topic@].type_id == old(self).topics()[topic@].type_id
                &&& final(self).topics()[topic@].subscribers@ == keep_flagged(
                    old(self).topics()[topic@].subscribers@,
                    delivered@,
                )
            },
    {
        let name = topic.to_owned();
        match self.topics.remove(&name) {
            Some(entry) => {
                let TopicEntry { type_id, subscribers } = entry;
                let kept = keep_delivered(subscribers, delivered);
                self.topics.insert(name, TopicEntry { type_id, subscribers: kept });
                proof {
                    assert(self.topics().dom() =~= old(self).topics().dom());
                }
            },
            None => {
                proof {
                    assert(self.topics() =~= old(self).topics());
                }
            },
        }
    }

    /// Takes off every subscriber that `records` names by topic and id.
    pub fn unsubscribe_all(&mut self, records: &Vec<(String, u64)>)
        ensures
            final(self).next_id() == old(self).next_id(),
            final(self).topics().dom() == old(self).topics().dom(),
            forall|t: Seq<char>|
                #[trigger] old(self).topics().contains_key(t) ==> {
                    &&& final(self).topics()[t].type_id == old(self).topics()[t].type_id
                    &&& final(self).topics()[t].subscribers@ == kept_subs(
                        old(self).topics()[t].subscribers@,
                        t,
                        sub_records(records@),
                    )
                },
    {
        let ghost start = self.topics();
        let ghost recs = sub_records(records@);
        let mut k: usize = 0;
        proof {
            assert forall|t: Seq<char>| #[trigger] start.contains_key(t) implies start[t].subscribers@
                == kept_subs(start[t].subscribers@, t, recs.take(0)) by {
                let subs = start[t].subscribers@;
                assert(subs.filter(|s: Subscriber<F>| !recs.take(0).contains((t, s.id))) =~= subs) by {
                    assert forall|i: int| 0 <= i < subs.len() implies (|s: Subscriber<F>|
                        !recs.take(0).contains((t, s.id)))(#[trigger] subs[i]) by {}
                    subs.lemma_filter_len(|s: Subscriber<F>| !recs.take(0).contains((t, s.id)));
                    assert forall|i: int| 0 <= i < subs.len() implies subs.filter(
                        |s: Subscriber<F>| !recs.take(0).contains((t, s.id)),
                    ).contains(#[trigger] subs[i]) by {
                        subs.lemma_filter_contains_rev(|s: Subscriber<F>| !recs.take(0).contains((t, s.id)), subs[i]);
                    }
                    lemma_filter_all(subs, |s: Subscriber<F>| !recs.take(0).contains((t, s.id)));
                }
            }
        }
        while k < records.len()
            invariant
                k <= records@.len(),
                recs == sub_records(records@),
                self.next_id() == old(self).next_id(),
                self.topics().dom() == start.dom(),
                start == old(self).topics(),
                forall|t: Seq<char>|
                    #[trigger] start.contains_key(t) ==> {
                        &&& self.topics()[t].type_id == start[t].type_id
                        &&& self.topics()[t].subscribers@ == kept_subs(start[t].subscribers@, t, recs.take(k as int))
                    },
            decreases records@.len() - k,
        {
            let topic = &records[k].0;
            let sub_id = records[k].1;
            let ghost before = self.topics();
            self.unsubscribe(topic, sub_id);
            proof {
                assert(recs.take(k + 1) =~= recs.take(k as int).push((topic@, sub_id)));
                assert forall|t: Seq<char>| #[trigger] start.contains_key(t) implies {
                    &&& self.topics()[t].type_id == start[t].type_id
                    &&& self.topics()[t].subscribers@ == kept_subs(start[t].subscribers@, t, recs.take(k + 1))
                } by {
                    let subs = start[t].subscribers@;
                    let p = |s: Subscriber<F>| !recs.take(k as int).contains((t, s.id));
                    let p2 = |s: Subscriber<F>| !recs.take(k + 1).contains((t, s.id));
                    if t == topic@ {
                        let q = |s: Subscriber<F>| s.id != sub_id;
                        lemma_filter_filter(subs, p, q);
                        assert forall|e: Subscriber<F>| (p(e) && q(e)) == #[trigger] p2(e) by {
                            lemma_push_contains(recs.take(k as int), (topic@, sub_id), (t, e.id));
                        }
                        assert((|e: Subscriber<F>| p(e) && q(e)) =~= p2);
                    } else {
                        assert forall|e: Subscriber<F>| p(e) == #[trigger] p2(e) by {
                            lemma_push_contains(recs.take(k as int), (topic@, sub_id), (t, e.id));
                        }
                        assert(p =~= p2);
                    }
                }
            }
            k = k + 1;
        }
        proof {
            assert(recs.take(records@.len() as int) =~= recs);
        }
    }

    /// Subscribes an actor: the subscription is recorded in its context, so that
    /// it can be taken off when the actor stops or restarts.
    pub fn subscribe_actor<C>(
        &mut self,
        core: &mut CtxCore<C>,
        topic: &str,
        type_id: TypeId,
        send_fn: F,
    ) -> (r: Result<(), PubSubError>)
        requires
            old(self).next_id() < u64::MAX,
        ensures
            match r {
                Err(e) => {
                    &&& old(self).topics().contains_key(topic@)
                    &&& old(self).topics()[topic@].type_id != type_id
                    &&& e matches PubSubError::TypeMismatch { topic: t } && t@ == topic@
                    &&& final(self).topics() == old(self).topics()
                    &&& final(self).next_id() == old(self).next_id()
                    &&& final(core).subscription_ids@ == old(core).subscription_ids@
                },
                Ok(_) => {
                    &&& old(self).topics().contains_key(topic@) ==> old(self).topics()[topic@].type_id == type_id
                    &&& final(self).next_id() == old(self).next_id() + 1
                    &&& final(self).topics().dom() == old(self).topics().dom().insert(topic@)
                    &&& forall|t: Seq<char>|
                        t != topic@ && #[trigger] old(self).topics().contains_key(t) ==> final(self).topics()[t]
                            == old(self).topics()[t]
                    &&& final(self).topics()[topic@].type_id == type_id
                    &&& final(self).topics()[topic@].subscribers@ == if old(self).topics().contains_key(topic@) {
                        old(self).topics()[topic@].subscribers@
                    } else {
                        Seq::<Subscriber<F>>::empty()
                    }.push(Subscriber { id: old(self).next_id(), send_fn })
                    &&& sub_records(final(core).subscription_ids@) == sub_records(old(core).subscription_ids@).push(
                        (topic@, old(self).next_id()),
                    )
                },
            },
            final(core).id == old(core).id,
            final(core).has_parent == old(core).has_parent,
            final(core).children == old(core).children,
            final(core).supervision == old(core).supervision,
            final(core).restarts == old(core).restarts,
            final(core).registry_key == old(core).registry_key,
    {
        match self.subscribe(topic, type_id, send_fn) {
            Ok(id) => {
                core.subscription_ids.push((topic.to_owned(), id));
                proof {
                    assert(sub_records(core.subscription_ids@) =~= sub_records(old(core).subscription_ids@).push(
                        (topic@, id),
                    ));
                }
                Ok(())
            },
            Err(e) => Err(e),
        }
    }

    /// Takes off every subscription an actor holds, and forgets them.
    pub fn unsubscribe_actor<C>(&mut self, core: &mut CtxCore<C>)
        ensures
            final(self).next_id() == old(self).next_id(),
            final(self).topics().dom() == old(self).topics().dom(),
            forall|t: Seq<char>|
                #[trigger] old(self).topics().contains_key(t) ==> {
                    &&& final(self).topics()[t].type_id == old(self).topics()[t].type_id
                    &&& final(self).topics()[t].subscribers@ == kept_subs(
                        old(self).topics()[t].subscribers@,
                        t,
                        sub_records(old(core).subscription_ids@),
                    )
                },
            final(core).subscription_ids@.len() == 0,
            final(core).id == old(core).id,
            final(core).has_parent == old(core).has_parent,
            final(core).children == old(core).children,
            final(core).supervision == old(core).supervision,
            final(core).restarts == old(core).restarts,
            final(core).registry_key == old(core).registry_key,
    {
        self.unsubscribe_all(&core.subscription_ids);
        core.subscription_ids = Vec::new();
    }
}

/// Every element passes the filter: it keeps the whole sequence.
pub proof fn lemma_filter_all<A>(s: Seq<A>, p: spec_fn(A) -> bool)
    requires
        forall|i: int| 0 <= i < s.len() ==> p(#[trigger] s[i]),
    ensures
        s.filter(p) =~= s,
    decreases s.len(),
{
    reveal(Seq::filter);
    if s.len() > 0 {
        let t = s.drop_last();
        assert forall|i: int| 0 <= i < t.len() implies p(#[trigger] t[i]) by {
            assert(t[i] == s[i]);
        }
        lemma_filter_all(t, p);
        assert(s =~= t.push(s.last()));
        t.lemma_filter_push(s.last(), p);
    }
}

/// After an actor's subscriptions are taken off, none of them is left: no
/// subscriber that its records name stays on the topic.
pub proof fn law_cleanup_leaves_none<F>(subs: Seq<Subscriber<F>>, t: Seq<char>, records: Seq<(Seq<char>, u64)>, i: int)
    requires
        0 <= i < kept_subs(subs, t, records).len(),
    ensures
        !records.contains((t, kept_subs(subs, t, records)[i].id)),
{
    subs.lemma_filter_pred(|s: Subscriber<F>| !records.contains((t, s.id)), i);
}

/// Taking an actor's subscriptions off leaves every other subscriber in place.
pub proof fn law_cleanup_keeps_others<F>(subs: Seq<Subscriber<F>>, t: Seq<char>, records: Seq<(Seq<char>, u64)>, i: int)
    requires
        0 <= i < subs.len(),
        !records.contains((t, subs[i].id)),
    ensures
        kept_subs(subs, t, records).contains(subs[i]),
{
    subs.lemma_filter_contains_rev(|s: Subscriber<F>| !records.contains((t, s.id)), subs[i]);
}

/// All subscriber ids are below the next id to be handed out.
pub open spec fn ids_below_next<F>(p: PubSub<F>) -> bool {
    forall|t: Seq<char>, i: int|
        p.topics().contains_key(t) && 0 <= i < p.topics()[t].subscribers@.len()
            ==> #[trigger] p.topics()[t].subscribers@[i].id < p.next_id()
}

/// Subscribing keeps every id below the next one, so each new subscriber's id
/// differs from all earlier ones: an actor that subscribes twice is two subscribers.
pub proof fn law_subscriber_ids_are_fresh<F>(before: PubSub<F>, after: PubSub<F>, topic: Seq<char>, type_id: TypeId, send_fn: F)
    requires
        ids_below_next(before),
        before.topics().contains_key(topic) ==> before.topics()[topic].type_id == type_id,
        after.next_id() == before.next_id() + 1,
        after.topics().dom() == before.topics().dom().insert(topic),
        forall|t: Seq<char>|
            t != topic && #[trigger] before.topics().contains_key(t) ==> after.topics()[t] == before.topics()[t],
        after.topics()[topic].subscribers@ == if before.topics().contains_key(topic) {
            before.topics()[topic].subscribers@
        } else {
            Seq::<Subscriber<F>>::empty()
        }.push(Subscriber { id: before.next_id(), send_fn }),
    ensures
        ids_below_next(after),
        forall|t: Seq<char>, i: int|
            before.topics().contains_key(t) && 0 <= i < before.topics()[t].subscribers@.len()
                ==> #[trigger] before.topics()[t].subscribers@[i].id != before.next_id(),
{
    assert forall|t: Seq<char>, i: int|
        after.topics().contains_key(t) && 0 <= i < after.topics()[t].subscribers@.len() implies
            #[trigger] after.topics()[t].subscribers@[i].id < after.next_id() by {
        if t == topic {
            if i < after.topics()[t].subscribers@.len() - 1 {
                assert(before.topics().contains_key(t));
            }
        } else {
            assert(before.topics().contains_key(t));
        }
    }
}

} // verus!
