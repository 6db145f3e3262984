//! The simple runtime's verified core: supervision by directive, restart
//! counting with an optional limit, backoff, and the message loop's decisions.
use vstd::prelude::*;
use crate::children::ChildTable;
use crate::id_map::IdMap;
use crate::keyed::values_of;
use crate::process_api::supervision::DURATION_MAX_NANOS;

verus! {

/// Why waiting for a response failed.
#[derive(Debug)]
pub enum AskErr {
    /// The request was dropped before a reply.
    Failure,
    Timeout,
}

/// How a wait for a response ends: the reply, `Failure` when the request was
/// dropped first, or `Timeout` when the deadline passed first.
pub fn response_outcome<T>(within_deadline: bool, received: Option<T>) -> (r: Result<T, AskErr>)
    ensures
        !within_deadline ==> r == Err::<T, AskErr>(AskErr::Timeout),
        within_deadline ==> match received {
            Some(v) => r == Ok::<T, AskErr>(v),
            None => r == Err::<T, AskErr>(AskErr::Failure),
        },
{
    if !within_deadline {
        return Err(AskErr::Timeout);
    }
    match received {
        Some(v) => Ok(v),
        None => Err(AskErr::Failure),
    }
}

/// Action to take after a process errors.
#[derive(Clone, Copy, Debug)]
pub enum Directive {
    /// Resumes the process that had the error as if nothing happened.
    Resume,
    /// Gracefully stops the process that had the error.
    Stop,
    /// Restarts the process that had the error.
    Restart,
}

/// How long to wait before a restart, in nanoseconds.
#[derive(Clone, Copy, Debug)]
pub enum Backoff {
    Static(u128),
    Incremental { steps: u128, max: u128 },
}

/// Restart counters, per child for one-for-one, shared for one-for-all.
#[allow(inconsistent_fields)]
pub enum Strategy {
    OneForOne { counter: IdMap<u32> },
    OneForAll { counter: u32 },
}

/// A supervision strategy; `D` is a decider, which may pick a directive for a
/// particular error.
pub struct Supervision<D> {
    pub strategy: Strategy,
    pub directive: Directive,
    pub max_restarts: Option<u32>,
    pub backoff: Option<Backoff>,
    pub deciders: Vec<D>,
}

impl<D> Supervision<D> {
    /// Per-child restarts; the default directive is `Restart`.
    pub fn one_for_one() -> (r: Self)
        ensures
            r.strategy matches Strategy::OneForOne { counter } && counter.map() == Map::<u64, u32>::empty(),
            r.directive == Directive::Restart,
            r.max_restarts is None,
            r.backoff is None,
            r.deciders@.len() == 0,
    {
        Supervision {
            strategy: Strategy::OneForOne { counter: IdMap::new() },
            directive: Directive::Restart,
            max_restarts: None,
            backoff: None,
            deciders: Vec::new(),
        }
    }

    /// The same as [`Supervision::one_for_one`]: this runtime sets up a
    /// one-for-one strategy here too.
    pub fn one_for_all() -> (r: Self)
        ensures
            r.strategy matches Strategy::OneForOne { counter } && counter.map() == Map::<u64, u32>::empty(),
            r.directive == Directive::Restart,
            r.max_restarts is None,
            r.backoff is None,
            r.deciders@.len() == 0,
    {
        Supervision {
            strategy: Strategy::OneForOne { counter: IdMap::new() },
            directive: Directive::Restart,
            max_restarts: None,
            backoff: None,
            deciders: Vec::new(),
        }
    }

    pub fn directive(self, directive: Directive) -> (r: Self)
        ensures
            r == (Supervision { directive, ..self }),
    {
        Supervision { directive, ..self }
    }

    pub fn max_restarts(self, max_restarts: u32) -> (r: Self)
        ensures
            r == (Supervision { max_restarts: Some(max_restarts), ..self }),
    {
        Supervision { max_restarts: Some(max_restarts), ..self }
    }

    pub fn backoff(self, backoff: Backoff) -> (r: Self)
        ensures
            r == (Supervision { backoff: Some(backoff), ..self }),
    {
        Supervision { backoff: Some(backoff), ..self }
    }

    /// Adds a decider, consulted after those added before.
    pub fn with_decider(self, decider: D) -> (r: Self)
        ensures
            r.strategy == self.strategy,
            r.directive == self.directive,
            r.max_restarts == self.max_restarts,
            r.backoff == self.backoff,
            r.deciders@ == self.deciders@.push(decider),
    {
        let Supervision { strategy, directive, max_restarts, backoff, mut deciders } = self;
        deciders.push(decider);
        Supervision { strategy, directive, max_restarts, backoff, deciders }
    }
}

/// The first directive picked, else `default`.
pub open spec fn first_simple_directive(opinions: Seq<Option<Directive>>, default: Directive) -> Directive
    decreases opinions.len(),
{
    if opinions.len() == 0 {
        default
    } else {
        match opinions[0] {
            Some(d) => d,
            None => first_simple_directive(opinions.drop_first(), default),
        }
    }
}

/// The first decider with an opinion decides: later deciders are not heard.
pub proof fn law_first_simple_opinion_wins(opinions: Seq<Option<Directive>>, i: int, default: Directive)
    requires
        0 <= i < opinions.len(),
        opinions[i] is Some,
        forall|j: int| 0 <= j < i ==> (#[trigger] opinions[j]) is None,
    ensures
        first_simple_directive(opinions, default) == opinions[i]->Some_0,
    decreases i,
{
    if i > 0 {
        assert forall|j: int| 0 <= j < i - 1 implies (#[trigger] opinions.drop_first()[j]) is None by {
            assert(opinions.drop_first()[j] == opinions[j + 1]);
        }
        assert(opinions[0] is None);
        law_first_simple_opinion_wins(opinions.drop_first(), i - 1, default);
    }
}

/// Without any opinion, the supervision's own directive applies.
pub proof fn law_no_simple_opinion_gives_default(opinions: Seq<Option<Directive>>, default: Directive)
    requires
        forall|j: int| 0 <= j < opinions.len() ==> (#[trigger] opinions[j]) is None,
    ensures
        first_simple_directive(opinions, default) == default,
    decreases opinions.len(),
{
    if opinions.len() > 0 {
        assert(opinions[0] is None);
        assert forall|j: int| 0 <= j < opinions.drop_first().len() implies (#[trigger] opinions.drop_first()[j])
            is None by {
            assert(opinions.drop_first()[j] == opinions[j + 1]);
        }
        law_no_simple_opinion_gives_default(opinions.drop_first(), default);
    }
}

/// The directive for an error: what the first decider with an opinion says,
/// else the default directive.
pub fn choose_directive(opinions: &Vec<Option<Directive>>, default: Directive) -> (r: Directive)
    ensures
        r == first_simple_directive(opinions@, default),
{
    let mut i: usize = 0;
    proof {
        assert(opinions@.subrange(0, opinions@.len() as int) =~= opinions@);
    }
    while i < opinions.len()
        invariant
            i <= opinions@.len(),
            first_simple_directive(opinions@.subrange(i as int, opinions@.len() as int), default)
                == first_simple_directive(opinions@, default),
        decreases opinions@.len() - i,
    {
        let ghost rest = opinions@.subrange(i as int, opinions@.len() as int);
        if let Some(d) = opinions[i] {
            assert(rest[0] == opinions@[i as int]);
            return d;
        }
        proof {
            assert(rest[0] == opinions@[i as int]);
            assert(rest.drop_first() =~= opinions@.subrange(i + 1, opinions@.len() as int));
        }
        i = i + 1;
    }
    default
}

/// The wait before a restart after `attempts` earlier ones, or `None` when the
/// limit is reached.
pub open spec fn backoff_after(max: Option<u32>, backoff: Option<Backoff>, attempts: u32) -> Option<int> {
    let should_restart = match max {
        None => true,
        Some(m) => attempts < m,
    };
    if should_restart {
        Some(
            match backoff {
                None => 0,
                Some(Backoff::Static(d)) => d as int,
                Some(Backoff::Incremental { steps, max }) => {
                    let grown = steps * attempts;
                    if max <= grown {
                        max as int
                    } else {
                        grown
                    }
                },
            },
        )
    } else {
        None
    }
}

/// The inputs on which the backoff is a duration: a grown incremental backoff
/// must fit in one.
pub open spec fn backoff_fits(max: Option<u32>, backoff: Option<Backoff>, attempts: u32) -> bool {
    backoff_after(max, backoff, attempts) is Some ==> match backoff {
        Some(Backoff::Incremental { steps, .. }) => steps * attempts <= DURATION_MAX_NANOS,
        _ => true,
    }
}

/// Whether [`calc_backoff`] can run on these inputs.
pub fn calc_backoff_fits(max: Option<u32>, backoff: Option<Backoff>, attempts: u32) -> (r: bool)
    ensures
        r == backoff_fits(max, backoff, attempts),
{
    let should_restart = match max {
        None => true,
        Some(m) => attempts < m,
    };
    if !should_restart {
        return true;
    }
    match backoff {
        Some(Backoff::Incremental { steps, .. }) => match steps.checked_mul(attempts as u128) {
            None => false,
            Some(p) => p <= DURATION_MAX_NANOS,
        },
        _ => true,
    }
}

/// The wait before a restart after `attempts` earlier ones, or `None` when the
/// limit is reached.
pub fn calc_backoff(max: Option<u32>, backoff: Option<Backoff>, attempts: u32) -> (r: Option<u128>)
    requires
        backoff_fits(max, backoff, attempts),
    ensures
        match backoff_after(max, backoff, attempts) {
            None => r is None,
            Some(d) => r == Some(d as u128),
        },
{
    let should_restart = match max {
        None => true,
        Some(m) => attempts < m,
    };
    if should_restart {
        let dur: u128 = match backoff {
            None => 0,
            Some(Backoff::Static(dur)) => dur,
            Some(Backoff::Incremental { steps, max }) => {
                let grown = steps * (attempts as u128);
                if max <= grown {
                    max
                } else {
                    grown
                }
            },
        };
        Some(dur)
    } else {
        None
    }
}

/// With a limit of `m`, restarts are allowed while fewer than `m` happened;
/// without one, always.
pub proof fn law_limit_counts_attempts(m: u32, backoff: Option<Backoff>, attempts: u32)
    ensures
        backoff_after(Some(m), backoff, attempts) is Some <==> attempts < m,
        backoff_after(None, backoff, attempts) is Some,
{
}

/// An incremental backoff never exceeds its `max` and never shrinks as attempts add up.
pub proof fn law_incremental_backoff(steps: u128, max: u128, a1: u32, a2: u32)
    requires
        a1 <= a2,
    ensures
        backoff_after(None, Some(Backoff::Incremental { steps, max }), a1)->Some_0 <= max,
        backoff_after(None, Some(Backoff::Incremental { steps, max }), a1)->Some_0 <= backoff_after(
            None,
            Some(Backoff::Incremental { steps, max }),
            a2,
        )->Some_0,
{
    assert(steps * a1 <= steps * a2) by (nonlinear_arith)
        requires
            a1 <= a2,
            steps >= 0,
    ;
}

/// What a parent does about a child's error. An acknowledgement follows in every case.
pub enum SimplePlan<C> {
    /// Nothing: the child is unknown, the directive is `Resume`, or the restart
    /// limit is reached.
    Nothing,
    /// Counting the restart would overflow the counter or a duration.
    CounterOverflow,
    /// Send the child, still in the table, a restart after `delay`.
    RestartChild { delay: u128 },
    /// Send the child, taken out of the table, a stop.
    StopChild { child: C },
    /// Send every child a restart after `delay`.
    RestartAll { delay: u128 },
    /// Send every child, all taken out of the table, a stop.
    StopAll { children: Vec<C> },
}

/// The restart count of a child: its own, or zero.
pub open spec fn child_count(counter: Map<u64, u32>, id: u64) -> u32 {
    if counter.contains_key(id) {
        counter[id]
    } else {
        0
    }
}

/// Decides what to do about the error of child `proc_id` under `directive`,
/// and updates the counters and the children table.
pub fn plan_for_error<C, D>(sup: &mut Supervision<D>, children: &mut ChildTable<C>, directive: Directive, proc_id: u64) -> (r:
    SimplePlan<C>)
    ensures
        final(sup).directive == old(sup).directive,
        final(sup).max_restarts == old(sup).max_restarts,
        final(sup).backoff == old(sup).backoff,
        final(sup).deciders == old(sup).deciders,
        final(children).total() == old(children).total(),
        match (old(sup).strategy, directive) {
            (Strategy::OneForOne { counter }, Directive::Restart) => {
                let n = child_count(counter.map(), proc_id);
                if !old(children).children_map().contains_key(proc_id) {
                    &&& r is Nothing
                    &&& final(sup).strategy == old(sup).strategy
                    &&& final(children).children_map() == old(children).children_map()
                } else if backoff_after(old(sup).max_restarts, old(sup).backoff, n) is Some && (n == u32::MAX
                    || !backoff_fits(old(sup).max_restarts, old(sup).backoff, n)) {
                    &&& r is CounterOverflow
                    &&& final(sup).strategy == old(sup).strategy
                    &&& final(children).children_map() == old(children).children_map()
                } else {
                    &&& final(children).children_map() == old(children).children_map()
                    &&& match backoff_after(old(sup).max_restarts, old(sup).backoff, n) {
                        Some(d) => {
                            &&& r == SimplePlan::<C>::RestartChild { delay: d as u128 }
                            &&& final(sup).strategy matches Strategy::OneForOne { counter: after }
                                && after.map() == counter.map().insert(proc_id, (n + 1) as u32)
                        },
                        None => {
                            &&& r is Nothing
                            &&& final(sup).strategy matches Strategy::OneForOne { counter: after }
                                && after.map() == counter.map().insert(proc_id, n)
                        },
                    }
                }
            },
            (Strategy::OneForOne { counter }, Directive::Stop) => {
                if !old(children).children_map().contains_key(proc_id) {
                    &&& r is Nothing
                    &&& final(sup).strategy == old(sup).strategy
                    &&& final(children).children_map() == old(children).children_map()
                } else {
                    &&& r matches SimplePlan::StopChild { child } && child == old(children).children_map()[proc_id]
                    &&& final(sup).strategy matches Strategy::OneForOne { counter: after }
                        && after.map() == counter.map().remove(proc_id)
                    &&& final(children).children_map() == old(children).children_map().remove(proc_id)
                }
            },
            (Strategy::OneForAll { counter }, Directive::Restart) => {
                &&& final(children).children_map() == old(children).children_map()
                &&& if backoff_after(old(sup).max_restarts, old(sup).backoff, counter) is Some && (counter == u32::MAX
                    || !backoff_fits(old(sup).max_restarts, old(sup).backoff, counter)) {
                    r is CounterOverflow && final(sup).strategy == old(sup).strategy
                } else {
                    match backoff_after(old(sup).max_restarts, old(sup).backoff, counter) {
                        Some(d) => {
                            &&& r == SimplePlan::<C>::RestartAll { delay: d as u128 }
                            &&& final(sup).strategy == (Strategy::OneForAll { counter: (counter + 1) as u32 })
                        },
                        None => r is Nothing && final(sup).strategy == old(sup).strategy,
                    }
                }
            },
            (Strategy::OneForAll { counter }, Directive::Stop) => {
                &&& r matches SimplePlan::StopAll { children: all } && all@ == values_of(old(children).entries())
                &&& final(sup).strategy == old(sup).strategy
                &&& final(children).children_map() == Map::<u64, C>::empty()
            },
            (_, Directive::Resume) => {
                &&& r is Nothing
                &&& final(sup).strategy == old(sup).strategy
                &&& final(children).children_map() == old(children).children_map()
            },
        },
{
    let max = sup.max_restarts;
    let backoff = sup.backoff;
    if let Directive::Resume = directive {
        return SimplePlan::Nothing;
    }
    let mut strategy = Strategy::OneForAll { counter: 0 };
    std::mem::swap(&mut strategy, &mut sup.strategy);
    match strategy {
        Strategy::OneForOne { mut counter } => {
            if children.get(proc_id).is_none() {
                sup.strategy = Strategy::OneForOne { counter };
                return SimplePlan::Nothing;
            }
            match directive {
                Directive::Restart => {
                    let n: u32 = match counter.get(proc_id) {
                        Some(n) => *n,
                        None => 0,
                    };
                    let granted = match max {
                        None => true,
                        Some(m) => n < m,
                    };
                    if granted && (n == u32::MAX || !calc_backoff_fits(max, backoff, n)) {
                        sup.strategy = Strategy::OneForOne { counter };
                        return SimplePlan::CounterOverflow;
                    }
                    match calc_backoff(max, backoff, n) {
                        Some(delay) => {
                            counter.insert(proc_id, n + 1);
                            sup.strategy = Strategy::OneForOne { counter };
                            SimplePlan::RestartChild { delay }
                        },
                        None => {
                            counter.insert(proc_id, n);
                            sup.strategy = Strategy::OneForOne { counter };
                            SimplePlan::Nothing
                        },
                    }
                },
                _ => {
                    counter.remove(proc_id);
                    sup.strategy = Strategy::OneForOne { counter };
                    match children.remove(proc_id) {
                        Some(child) => SimplePlan::StopChild { child },
                        None => SimplePlan::Nothing,
                    }
                },
            }
        },
        Strategy::OneForAll { counter } => {
            match directive {
                Directive::Restart => {
                    let granted = match max {
                        None => true,
                        Some(m) => counter < m,
                    };
                    if granted && (counter == u32::MAX || !calc_backoff_fits(max, backoff, counter)) {
                        sup.strategy = Strategy::OneForAll { counter };
                        return SimplePlan::CounterOverflow;
                    }
                    match calc_backoff(max, backoff, counter) {
                        Some(delay) => {
                            sup.strategy = Strategy::OneForAll { counter: counter + 1 };
                            SimplePlan::RestartAll { delay }
                        },
                        None => {
                            sup.strategy = Strategy::OneForAll { counter };
                            SimplePlan::Nothing
                        },
                    }
                },
                _ => {
                    sup.strategy = Strategy::OneForAll { counter };
                    let all = children.take_all();
                    SimplePlan::StopAll { children: all }
                },
            }
        },
    }
}

/// What a parent or a handle asks of a process.
#[derive(Debug)]
pub enum ProcAction {
    RestartIn(u128),
    Stop,
}

/// A control message of the simple runtime.
pub enum ProcMsg<X, A> {
    FromChild { child_id: u64, err: X, ack: A },
    FromParent(ProcAction),
    FromHandle(ProcAction),
}

/// What a control message asks of a running process.
pub enum LoopStep<X, A> {
    Continue,
    /// Stop: for a supervised process, its children are told to stop first.
    Stop,
    /// End the run and start again after the delay.
    RestartAfter(u128),
    /// A child failed: supervise it, then acknowledge through `ack`.
    ChildFailed { child_id: u64, err: X, ack: A },
}

/// Decides on a control message.
pub fn loop_step<X, A>(msg: ProcMsg<X, A>) -> (r: LoopStep<X, A>)
    ensures
        match msg {
            ProcMsg::FromHandle(ProcAction::Stop) => r is Stop,
            ProcMsg::FromParent(ProcAction::Stop) => r is Stop,
            ProcMsg::FromParent(ProcAction::RestartIn(d)) => r == LoopStep::<X, A>::RestartAfter(d),
            ProcMsg::FromChild { child_id, err, ack } => r == (LoopStep::ChildFailed { child_id, err, ack }),
            ProcMsg::FromHandle(ProcAction::RestartIn(_)) => r is Continue,
        },
{
    match msg {
        ProcMsg::FromHandle(ProcAction::Stop) => LoopStep::Stop,
        ProcMsg::FromParent(ProcAction::Stop) => LoopStep::Stop,
        ProcMsg::FromParent(ProcAction::RestartIn(d)) => LoopStep::RestartAfter(d),
        ProcMsg::FromChild { child_id, err, ack } => LoopStep::ChildFailed { child_id, err, ack },
        ProcMsg::FromHandle(ProcAction::RestartIn(_)) => LoopStep::Continue,
    }
}

} // verus!
