//! How a parent handles the error of a child: the strategy, the directive that
//! applies, restart counting, and the plan the parent carries out.
use vstd::prelude::*;
use crate::children::ChildTable;
use crate::id_map::IdMap;
use crate::keyed::values_of;
use crate::process_api::supervision::{
    backoff_delay, counting_fits, restart_gate, Backoff, Directive, IntoLimit, Limit, RestartCount,
};

verus! {

/// Restart counters, per child for one-for-one, shared for one-for-all.
#[allow(inconsistent_fields)]
pub enum Strategy {
    OneForOne { counter: IdMap<RestartCount> },
    OneForAll { counter: RestartCount },
}

/// A supervision strategy: how a parent responds to child failures. `D` is a
/// decider, which may pick a directive for a particular error.
pub struct Supervision<D> {
    pub strategy: Strategy,
    pub directive: Directive,
    pub max_restarts: Option<Limit>,
    pub backoff: Option<Backoff>,
    pub deciders: Vec<D>,
}

impl<D> Supervision<D> {
    /// Applies directives only to the failed child; the default directive is `Restart`.
    pub fn one_for_one() -> (r: Self)
        ensures
            r.strategy matches Strategy::OneForOne { counter } && counter.map() == Map::<u64, RestartCount>::empty(),
            r.directive == Directive::Restart,
            r.max_restarts is None,
            r.backoff is None,
            r.deciders@.len() == 0,
    {
        Supervision {
            strategy: Strategy::OneForOne { counter: IdMap::new() },
            directive: Directive::Restart,
            max_restarts: None,
            backoff: None,
            deciders: Vec::new(),
        }
    }

    /// Applies the directive to all children when any fails; the default
    /// directive is `Restart`. The restart clock starts at `now`.
    pub fn one_for_all(now: u128) -> (r: Self)
        ensures
            r.strategy == (Strategy::OneForAll { counter: RestartCount { count: 0, last_restart: now } }),
            r.directive == Directive::Restart,
            r.max_restarts is None,
            r.backoff is None,
            r.deciders@.len() == 0,
    {
        Supervision {
            strategy: Strategy::OneForAll { counter: RestartCount::starting_at(now) },
            directive: Directive::Restart,
            max_restarts: None,
            backoff: None,
            deciders: Vec::new(),
        }
    }

    /// Sets the directive applied when no decider picks one.
    pub fn directive(self, directive: Directive) -> (r: Self)
        ensures
            r == (Supervision { directive, ..self }),
    {
        Supervision { directive, ..self }
    }

    /// Sets how many restarts are allowed before a failed child is stopped.
    pub fn max_restarts<T: IntoLimit>(self, max_restarts: T) -> (r: Self)
        ensures
            r == (Supervision { max_restarts: Some(max_restarts.as_limit()), ..self }),
    {
        let limit = max_restarts.into_limit();
        Supervision { max_restarts: Some(limit), ..self }
    }

    /// Sets the wait before restarts.
    pub fn backoff(self, backoff: Backoff) -> (r: Self)
        ensures
            r == (Supervision { backoff: Some(backoff), ..self }),
    {
        Supervision { backoff: Some(backoff), ..self }
    }

    /// Adds a decider, consulted after those added before.
    pub fn with_decider(self, decider: D) -> (r: Self)
        ensures
            r.strategy == self.strategy,
            r.directive == self.directive,
            r.max_restarts == self.max_restarts,
            r.backoff == self.backoff,
            r.deciders@ == self.deciders@.push(decider),
    {
        let Supervision { strategy, directive, max_restarts, backoff, mut deciders } = self;
        deciders.push(decider);
        Supervision { strategy, directive, max_restarts, backoff, deciders }
    }
}

/// The first directive picked, else `default`.
pub open spec fn first_directive(opinions: Seq<Option<Directive>>, default: Directive) -> Directive
    decreases opinions.len(),
{
    if opinions.len() == 0 {
        default
    } else {
        match opinions[0] {
            Some(d) => d,
            None => first_directive(opinions.drop_first(), default),
        }
    }
}

/// The directive for an error: what the first decider that has an opinion
/// says (`opinions[i]` is the `i`-th decider's), else the default directive.
pub fn choose_directive(opinions: &Vec<Option<Directive>>, default: Directive) -> (r: Directive)
    ensures
        r == first_directive(opinions@, default),
{
    let mut i: usize = 0;
    proof {
        assert(opinions@.subrange(0, opinions@.len() as int) =~= opinions@);
    }
    while i < opinions.len()
        invariant
            i <= opinions@.len(),
            forall|j: int| 0 <= j < i ==> (#[trigger] opinions@[j]) is None,
            first_directive(opinions@.subrange(i as int, opinions@.len() as int), default) == first_directive(
                opinions@,
                default,
            ),
        decreases opinions@.len() - i,
    {
        let ghost rest = opinions@.subrange(i as int, opinions@.len() as int);
        if let Some(d) = opinions[i] {
            assert(rest[0] == opinions@[i as int]);
            return d;
        }
        proof {
            assert(rest[0] == opinions@[i as int]);
            assert(rest.drop_first() =~= opinions@.subrange(i + 1, opinions@.len() as int));
        }
        i = i + 1;
    }
    default
}

/// The counter after a counted restart.
pub open spec fn counted(c: RestartCount, max: Option<Limit>, now: u128) -> RestartCount {
    RestartCount { count: restart_gate(c, max, now).1 as u32, last_restart: now }
}

/// What a parent does about a child's error, in the order it is done.
pub enum ErrPlan<C> {
    /// The failing child is unknown: nothing is done, and no acknowledgement is sent.
    Ignore,
    /// Counting the restart would overflow a counter, the clock or a duration.
    CounterOverflow,
    /// Acknowledge, and nothing more.
    Resume,
    /// Send the child, still in the table, a restart after `delay`; then acknowledge.
    RestartChild { delay: u128 },
    /// Send the child, taken out of the table, a stop; then acknowledge.
    StopChild { child: C },
    /// Acknowledge; then restart every child after `delay`, waiting until each
    /// has exited before letting any start again.
    RestartAll { delay: u128 },
    /// Acknowledge first when `ack`; then stop every child, all taken out of the table.
    StopAll { children: Vec<C>, ack: bool },
    /// Report the error to this parent's own parent, as coming from child `id`;
    /// then acknowledge.
    Escalate { id: u64 },
}

/// The counter of a child: its own, or a fresh one started at `now`.
pub open spec fn child_counter(counter: Map<u64, RestartCount>, id: u64, now: u128) -> RestartCount {
    if counter.contains_key(id) {
        counter[id]
    } else {
        RestartCount { count: 0, last_restart: now }
    }
}

/// Decides what to do about the error of child `proc_id`, under `directive`
/// (see [`choose_directive`]), and updates the counters and the children table.
/// `self_id` is this parent's own id.
pub fn plan_for_error<C, D>(
    sup: &mut Supervision<D>,
    children: &mut ChildTable<C>,
    directive: Directive,
    proc_id: u64,
    self_id: u64,
    now: u128,
) -> (r: ErrPlan<C>)
    ensures
        final(sup).directive == old(sup).directive,
        final(sup).max_restarts == old(sup).max_restarts,
        final(sup).backoff == old(sup).backoff,
        final(sup).deciders == old(sup).deciders,
        final(children).total() == old(children).total(),
        match (old(sup).strategy, directive) {
            (Strategy::OneForOne { counter }, Directive::Restart) => {
                let c = child_counter(counter.map(), proc_id, now);
                if !old(children).children_map().contains_key(proc_id) {
                    &&& r is Ignore
                    &&& final(sup).strategy == old(sup).strategy
                    &&& final(children).children_map() == old(children).children_map()
                } else if !counting_fits(c, old(sup).max_restarts, old(sup).backoff, now) {
                    &&& r is CounterOverflow
                    &&& final(sup).strategy == old(sup).strategy
                    &&& final(children).children_map() == old(children).children_map()
                } else if restart_gate(c, old(sup).max_restarts, now).0 {
                    &&& r == ErrPlan::<C>::RestartChild {
                        delay: backoff_delay(old(sup).backoff, c.count) as u128,
                    }
                    &&& final(sup).strategy matches Strategy::OneForOne { counter: after }
                        && after.map() == counter.map().insert(proc_id, counted(c, old(sup).max_restarts, now))
                    &&& final(children).children_map() == old(children).children_map()
                } else {
                    &&& r matches ErrPlan::StopChild { child } && child == old(children).children_map()[proc_id]
                    &&& final(sup).strategy matches Strategy::OneForOne { counter: after }
                        && after.map() == counter.map().insert(proc_id, c)
                    &&& final(children).children_map() == old(children).children_map().remove(proc_id)
                }
            },
            (Strategy::OneForOne { counter }, Directive::Stop) => {
                if !old(children).children_map().contains_key(proc_id) {
                    &&& r is Ignore
                    &&& final(sup).strategy == old(sup).strategy
                    &&& final(children).children_map() == old(children).children_map()
                } else {
                    &&& r matches ErrPlan::StopChild { child } && child == old(children).children_map()[proc_id]
                    &&& final(sup).strategy matches Strategy::OneForOne { counter: after }
                        && after.map() == counter.map().remove(proc_id)
                    &&& final(children).children_map() == old(children).children_map().remove(proc_id)
                }
            },
            (Strategy::OneForAll { counter }, Directive::Restart) => {
                if !counting_fits(counter, old(sup).max_restarts, old(sup).backoff, now) {
                    &&& r is CounterOverflow
                    &&& final(sup).strategy == old(sup).strategy
                    &&& final(children).children_map() == old(children).children_map()
                } else if restart_gate(counter, old(sup).max_restarts, now).0 {
                    &&& r == ErrPlan::<C>::RestartAll {
                        delay: backoff_delay(old(sup).backoff, counter.count) as u128,
                    }
                    &&& final(sup).strategy == (Strategy::OneForAll {
                        counter: counted(counter, old(sup).max_restarts, now),
                    })
                    &&& final(children).children_map() == old(children).children_map()
                } else {
                    &&& r matches ErrPlan::StopAll { children: all, ack } && !ack && all@ == values_of(
                        old(children).entries(),
                    )
                    &&& final(sup).strategy == old(sup).strategy
                    &&& final(children).children_map() == Map::<u64, C>::empty()
                }
            },
            (Strategy::OneForAll { counter }, Directive::Stop) => {
                &&& r matches ErrPlan::StopAll { children: all, ack } && ack && all@ == values_of(
                    old(children).entries(),
                )
                &&& final(sup).strategy == old(sup).strategy
                &&& final(children).children_map() == Map::<u64, C>::empty()
            },
            (_, Directive::Escalate) => {
                &&& r == ErrPlan::<C>::Escalate { id: self_id }
                &&& final(sup).strategy == old(sup).strategy
                &&& final(children).children_map() == old(children).children_map()
            },
            (_, Directive::Resume) => {
                &&& r is Resume
                &&& final(sup).strategy == old(sup).strategy
                &&& final(children).children_map() == old(children).children_map()
            },
        },
{
    let max = sup.max_restarts;
    let backoff = sup.backoff;
    match directive {
        Directive::Escalate => {
            return ErrPlan::Escalate { id: self_id };
        },
        Directive::Resume => {
            return ErrPlan::Resume;
        },
        _ => {},
    }
    let mut strategy = Strategy::OneForOne { counter: IdMap::new() };
    std::mem::swap(&mut strategy, &mut sup.strategy);
    let ghost old_strategy = strategy;
    let plan = match strategy {
        Strategy::OneForOne { mut counter } => {
            if children.get(proc_id).is_none() {
                sup.strategy = Strategy::OneForOne { counter };
                return ErrPlan::Ignore;
            }
            match directive {
                Directive::Restart => {
                    let c = match counter.get(proc_id) {
                        Some(c) => *c,
                        None => RestartCount::starting_at(now),
                    };
                    if !c.counting_fits(max, backoff, now) {
                        sup.strategy = Strategy::OneForOne { counter };
                        return ErrPlan::CounterOverflow;
                    }
                    let mut updated = c;
                    let outcome = updated.get_backoff_duration(max, backoff, now);
                    counter.insert(proc_id, updated);
                    sup.strategy = Strategy::OneForOne { counter };
                    match outcome {
                        Some(delay) => ErrPlan::RestartChild { delay },
                        None => {
                            let child = children.remove(proc_id);
                            match child {
                                Some(child) => ErrPlan::StopChild { child },
                                None => ErrPlan::Ignore,
                            }
                        },
                    }
                },
                _ => {
                    counter.remove(proc_id);
                    sup.strategy = Strategy::OneForOne { counter };
                    let child = children.remove(proc_id);
                    match child {
                        Some(child) => ErrPlan::StopChild { child },
                        None => ErrPlan::Ignore,
                    }
                },
            }
        },
        Strategy::OneForAll { counter } => {
            match directive {
                Directive::Restart => {
                    if !counter.counting_fits(max, backoff, now) {
                        sup.strategy = Strategy::OneForAll { counter };
                        return ErrPlan::CounterOverflow;
                    }
                    let mut updated = counter;
                    match updated.get_backoff_duration(max, backoff, now) {
                        Some(delay) => {
                            sup.strategy = Strategy::OneForAll { counter: updated };
                            ErrPlan::RestartAll { delay }
                        },
                        None => {
                            sup.strategy = Strategy::OneForAll { counter };
                            let all = children.take_all();
                            ErrPlan::StopAll { children: all, ack: false }
                        },
                    }
                },
                _ => {
                    sup.strategy = Strategy::OneForAll { counter };
                    let all = children.take_all();
                    ErrPlan::StopAll { children: all, ack: true }
                },
            }
        },
    };
    plan
}

/// The first decider with an opinion decides; later ones are not heard.
pub proof fn law_first_opinion_wins(opinions: Seq<Option<Directive>>, i: int, default: Directive)
    requires
        0 <= i < opinions.len(),
        opinions[i] is Some,
        forall|j: int| 0 <= j < i ==> (#[trigger] opinions[j]) is None,
    ensures
        first_directive(opinions, default) == opinions[i]->Some_0,
    decreases i,
{
    if i > 0 {
        assert forall|j: int| 0 <= j < i - 1 implies (#[trigger] opinions.drop_first()[j]) is None by {
            assert(opinions.drop_first()[j] == opinions[j + 1]);
        }
        assert(opinions[0] is None);
        law_first_opinion_wins(opinions.drop_first(), i - 1, default);
    }
}

/// Without any opinion, the default directive applies.
pub proof fn law_no_opinion_gives_default(opinions: Seq<Option<Directive>>, default: Directive)
    requires
        forall|j: int| 0 <= j < opinions.len() ==> (#[trigger] opinions[j]) is None,
    ensures
        first_directive(opinions, default) == default,
    decreases opinions.len(),
{
    if opinions.len() > 0 {
        assert(opinions[0] is None);
        assert forall|j: int| 0 <= j < opinions.drop_first().len() implies (#[trigger] opinions.drop_first()[j]) is None by {
            assert(opinions.drop_first()[j] == opinions[j + 1]);
        }
        law_no_opinion_gives_default(opinions.drop_first(), default);
    }
}

/// One-for-one supervision touches the failing child only: the counters and
/// entries of its siblings stay as they were.
pub proof fn law_one_for_one_spares_siblings<C>(
    counters: Map<u64, RestartCount>,
    after: Map<u64, RestartCount>,
    children: Map<u64, C>,
    children_after: Map<u64, C>,
    proc_id: u64,
    c: RestartCount,
    sibling: u64,
)
    requires
        sibling != proc_id,
        after == counters.insert(proc_id, c) || after == counters.remove(proc_id),
        children_after == children || children_after == children.remove(proc_id),
    ensures
        after.contains_key(sibling) == counters.contains_key(sibling),
        counters.contains_key(sibling) ==> after[sibling] == counters[sibling],
        children_after.contains_key(sibling) == children.contains_key(sibling),
        children.contains_key(sibling) ==> children_after[sibling] == children[sibling],
{
}

} // verus!
