//! The minimal runtime: tasks that share a publish/subscribe bus, kept in a
//! table of abortable children and restarted on error by a simple policy.
use vstd::prelude::*;
use std::any::TypeId;
use crate::keyed::{find_id, has_key, keys_distinct, lemma_empty, lemma_key_index, lemma_push, lemma_remove, to_map, values_of};
use crate::speare::pubsub::{PubSub, PubSubError, Subscriber, TopicEntry};
use crate::speare::restart::{backoff_wait, limit_equals, Backoff, Limit};

verus! {

/// The id of a task among its parent's children.
#[derive(Debug, Clone, Copy, PartialEq, Eq, Hash)]
pub struct TaskId(u64);

impl TaskId {
    pub closed spec fn id(self) -> u64 {
        self.0
    }

    pub fn value(&self) -> (r: u64)
        ensures
            r == self.id(),
    {
        self.0
    }
}

#[derive(Debug, Clone, PartialEq, Eq)]
pub enum SpeareErr {
    TypeMismatch { topic: String },
    LockPoisonErr,
}

impl SpeareErr {
    /// The error's message.
    pub fn message(&self) -> (r: String)
        ensures
            self matches SpeareErr::TypeMismatch { topic } ==> r@ == "pub/sub topic type mismatch for topic: "@
                + topic@,
            self is LockPoisonErr ==> r@ == "internal RwLock poisoned"@,
    {
        match self {
            SpeareErr::TypeMismatch { topic } => {
                let mut s = String::from_str("pub/sub topic type mismatch for topic: ");
                s.append(topic.as_str());
                s
            },
            SpeareErr::LockPoisonErr => {
                proof {
                    reveal_strlit("internal RwLock poisoned");
                }
                String::from_str("internal RwLock poisoned")
            },
        }
    }
}

/// What a task's parent does when the task fails.
#[derive(Debug, Clone, Copy)]
pub enum OnErr {
    Stop,
    Restart { max: Limit, backoff: Backoff },
}

/// What follows a task's failure.
#[derive(Debug, Clone, Copy)]
pub enum TaskNext {
    Stop,
    /// Run the task again after this many nanoseconds.
    RetryAfter(u128),
}

/// The decision after a failure, given how many times the task restarted before.
pub open spec fn task_next(on_err: OnErr, restart_count: int) -> TaskNext {
    match on_err {
        OnErr::Stop => TaskNext::Stop,
        OnErr::Restart { max, backoff } => if limit_equals(max, restart_count) {
            TaskNext::Stop
        } else {
            TaskNext::RetryAfter(backoff_wait(backoff, restart_count) as u128)
        },
    }
}

/// Decides whether a failed task runs again, and after how long.
pub fn after_task_error(on_err: OnErr, restart_count: u64) -> (r: TaskNext)
    requires
        on_err is Restart ==> restart_count < u64::MAX,
    ensures
        r == task_next(on_err, restart_count as int),
{
    match on_err {
        OnErr::Stop => TaskNext::Stop,
        OnErr::Restart { max, backoff } => {
            if max == restart_count {
                TaskNext::Stop
            } else {
                let wait = crate::speare::restart::Restart::from_supervision(
                    crate::speare::restart::Supervision::Restart { max: Limit::Unlimited, backoff },
                    restart_count,
                );
                match wait {
                    crate::speare::restart::Restart::In(w) => TaskNext::RetryAfter(w),
                    crate::speare::restart::Restart::No => TaskNext::Stop,
                }
            }
        },
    }
}

/// With `Restart { max: Amount(n), .. }`, a task that always fails runs `n + 1`
/// times: after `k` restarts it runs again while `k < n`, and stops at `k == n`.
/// Without a limit it always runs again; with `Stop` its first failure is its last.
pub proof fn law_task_restarts_up_to_limit(n: u64, backoff: Backoff, k: int)
    requires
        0 <= k <= n,
    ensures
        k < n ==> task_next(OnErr::Restart { max: Limit::Amount(n), backoff }, k) is RetryAfter,
        k == n ==> task_next(OnErr::Restart { max: Limit::Amount(n), backoff }, k) is Stop,
        task_next(OnErr::Restart { max: Limit::Unlimited, backoff }, k) is RetryAfter,
        task_next(OnErr::Stop, k) is Stop,
{
}

/// A retried task waits what its backoff asks for at its own restart count: a
/// static backoff its duration, no backoff nothing, and an incremental backoff
/// `step * (k + 1)` between its bounds, never less after more restarts.
pub proof fn law_task_retry_waits(limit: Limit, backoff: Backoff, k1: int, k2: int)
    requires
        0 <= k1 <= k2,
        task_next(OnErr::Restart { max: limit, backoff }, k1) is RetryAfter,
        task_next(OnErr::Restart { max: limit, backoff }, k2) is RetryAfter,
    ensures
        backoff matches Backoff::Static(d) ==> task_next(OnErr::Restart { max: limit, backoff }, k1)
            == TaskNext::RetryAfter(d),
        backoff is Immediate ==> task_next(OnErr::Restart { max: limit, backoff }, k1) == TaskNext::RetryAfter(0),
        backoff matches Backoff::Incremental { min, max, step } ==> (min <= step * (k1 + 1) <= max ==> task_next(
            OnErr::Restart { max: limit, backoff },
            k1,
        ) == TaskNext::RetryAfter((step * (k1 + 1)) as u128)),
        task_next(OnErr::Restart { max: limit, backoff }, k1)->RetryAfter_0 <= task_next(
            OnErr::Restart { max: limit, backoff },
            k2,
        )->RetryAfter_0,
{
    crate::speare::restart::lemma_backoff_wait_bounded(backoff, k1);
    crate::speare::restart::lemma_backoff_wait_bounded(backoff, k2);
    if let Backoff::Incremental { min, max, step } = backoff {
        crate::speare::restart::law_incremental_monotone(min, max, step, k1, k2);
    }
}

/// The highest key of a list, or 0 when it is empty.
pub open spec fn highest_id<H>(s: Seq<(u64, H)>) -> u64
    decreases s.len(),
{
    if s.len() == 0 {
        0
    } else {
        let rest = highest_id(s.drop_last());
        if rest <= s.last().0 {
            s.last().0
        } else {
            rest
        }
    }
}

proof fn lemma_highest_bounds<H>(s: Seq<(u64, H)>)
    ensures
        forall|i: int| 0 <= i < s.len() ==> (#[trigger] s[i]).0 <= highest_id(s),
    decreases s.len(),
{
    if s.len() > 0 {
        lemma_highest_bounds(s.drop_last());
        assert forall|i: int| 0 <= i < s.len() implies (#[trigger] s[i]).0 <= highest_id(s) by {
            if i < s.len() - 1 {
                assert(s[i] == s.drop_last()[i]);
            }
        }
    }
}

/// The running tasks of a parent, by id.
pub struct TaskTable<H> {
    children: Vec<(u64, H)>,
}

impl<H> TaskTable<H> {
    /// The tasks, in the order in which they are visited.
    pub closed spec fn entries(&self) -> Seq<(u64, H)> {
        self.children@
    }

    /// The tasks as a map from id.
    pub open spec fn tasks(&self) -> Map<u64, H> {
        to_map(self.entries())
    }

    #[verifier::type_invariant]
    closed spec fn inv(&self) -> bool {
        keys_distinct(self.children@)
    }

    pub fn new() -> (t: Self)
        ensures
            t.tasks() == Map::<u64, H>::empty(),
            t.entries().len() == 0,
    {
        proof {
            lemma_empty::<u64, H>();
        }
        TaskTable { children: Vec::new() }
    }

    /// Whether a new id can be drawn without overflow.
    pub fn can_allocate(&self) -> (r: bool)
        ensures
            r == (highest_id(self.entries()) < u64::MAX),
    {
        self.highest() < u64::MAX
    }

    fn highest(&self) -> (r: u64)
        ensures
            r == highest_id(self.entries()),
    {
        let mut best: u64 = 0;
        let mut i: usize = 0;
        while i < self.children.len()
            invariant
                i <= self.children@.len(),
                best == highest_id(self.children@.subrange(0, i as int)),
            decreases self.children@.len() - i,
        {
            proof {
                assert(self.children@.subrange(0, i + 1).drop_last() =~= self.children@.subrange(0, i as int));
            }
            let k = self.children[i].0;
            if best <= k {
                best = k;
            }
            i = i + 1;
        }
        proof {
            assert(self.children@.subrange(0, self.children@.len() as int) =~= self.children@);
        }
        best
    }

    /// The id the next task gets: one above the highest id in use.
    pub fn next_id(&self) -> (r: TaskId)
        requires
            highest_id(self.entries()) < u64::MAX,
        ensures
            r.id() == highest_id(self.entries()) + 1,
            !self.tasks().contains_key(r.id()),
    {
        proof {
            use_type_invariant(self);
            lemma_highest_bounds(self.entries());
            let k = (highest_id(self.entries()) + 1) as u64;
            if has_key(self.entries(), k) {
                let i = choose|i: int| 0 <= i < self.entries().len() && #[trigger] self.entries()[i].0 == k;
                assert(self.entries()[i].0 <= highest_id(self.entries()));
            }
        }
        TaskId(self.highest() + 1)
    }

    /// Records a running task under a fresh id.
    pub fn insert(&mut self, id: TaskId, handle: H)
        requires
            !old(self).tasks().contains_key(id.id()),
        ensures
            final(self).tasks() == old(self).tasks().insert(id.id(), handle),
    {
        proof {
            use_type_invariant(&*self);
            lemma_push(self.entries(), id.0, handle);
        }
        let mut entries: Vec<(u64, H)> = Vec::new();
        std::mem::swap(&mut entries, &mut self.children);
        entries.push((id.0, handle));
        self.children = entries;
    }

    /// Takes a task out of the table, to be aborted; `None` when there is no such task.
    pub fn abort_child(&mut self, id: TaskId) -> (r: Option<H>)
        ensures
            final(self).tasks() == old(self).tasks().remove(id.id()),
            match r {
                Some(h) => old(self).tasks().contains_key(id.id()) && h == old(self).tasks()[id.id()],
                None => !old(self).tasks().contains_key(id.id()),
            },
    {
        proof {
            use_type_invariant(&*self);
        }
        let mut entries: Vec<(u64, H)> = Vec::new();
        std::mem::swap(&mut entries, &mut self.children);
        let ghost before = entries@;
        let r = match find_id(&entries, id.0) {
            Some(i) => {
                proof {
                    lemma_key_index(before, i as int);
                    lemma_remove(before, i as int);
                }
                let (_, h) = entries.remove(i);
                Some(h)
            },
            None => {
                assert(to_map(before).remove(id.0) =~= to_map(before));
                None
            },
        };
        self.children = entries;
        r
    }

    /// Takes every task out of the table, to be aborted.
    pub fn abort_children(&mut self) -> (r: Vec<H>)
        ensures
            final(self).tasks() == Map::<u64, H>::empty(),
            r@ == values_of(old(self).entries()),
    {
        let mut entries: Vec<(u64, H)> = Vec::new();
        std::mem::swap(&mut entries, &mut self.children);
        let ghost initial = entries@;
        let mut out: Vec<H> = Vec::new();
        let mut rest = entries;
        while rest.len() > 0
            invariant
                rest@.len() + out@.len() == initial.len(),
                forall|i: int| 0 <= i < out@.len() ==> #[trigger] out@[i] == initial[i].1,
                rest@ == initial.subrange(out@.len() as int, initial.len() as int),
            decreases rest@.len(),
        {
            let e = rest.remove(0);
            out.push(e.1);
        }
        proof {
            lemma_empty::<u64, H>();
            assert(out@ =~= values_of(initial));
        }
        out
    }
}

/// A new task's id is above every id in use, so it never collides with a running task.
pub proof fn law_task_ids_are_fresh<H>(t: TaskTable<H>, id: u64)
    requires
        t.tasks().contains_key(id),
    ensures
        id <= highest_id(t.entries()),
{
    let s = t.entries();
    lemma_highest_bounds(s);
    let i = choose|i: int| 0 <= i < s.len() && #[trigger] s[i].0 == id;
    assert(s[i].0 <= highest_id(s));
}

/// The error the minimal runtime reports for a refused subscription or publication.
pub open spec fn mini_err(e: PubSubError) -> SpeareErr {
    match e {
        PubSubError::TypeMismatch { topic } => SpeareErr::TypeMismatch { topic },
        PubSubError::PoisonErr => SpeareErr::LockPoisonErr,
    }
}

fn to_mini_err(e: PubSubError) -> (r: SpeareErr)
    ensures
        r == mini_err(e),
{
    match e {
        PubSubError::TypeMismatch { topic } => SpeareErr::TypeMismatch { topic },
        PubSubError::PoisonErr => SpeareErr::LockPoisonErr,
    }
}

/// Subscribes a receiver's sending side to `topic`; refused when the topic
/// carries another type.
pub fn subscribe<F>(pubsub: &mut PubSub<F>, topic: &str, type_id: TypeId, send_fn: F) -> (r: Result<(), SpeareErr>)
    requires
        old(pubsub).next_id() < u64::MAX,
    ensures
        match r {
            Err(e) => {
                &&& old(pubsub).topics().contains_key(topic@)
                &&& old(pubsub).topics()[topic@].type_id != type_id
                &&& e matches SpeareErr::TypeMismatch { topic: t } && t@ == topic@
                &&& final(pubsub).topics() == old(pubsub).topics()
                &&& final(pubsub).next_id() == old(pubsub).next_id()
            },
            Ok(_) => {
                &&& old(pubsub).topics().contains_key(topic@) ==> old(pubsub).topics()[topic@].type_id == type_id
                &&& final(pubsub).next_id() == old(pubsub).next_id() + 1
                &&& final(pubsub).topics().dom() == old(pubsub).topics().dom().insert(topic@)
                &&& forall|t: Seq<char>|
                    t != topic@ && #[trigger] old(pubsub).topics().contains_key(t) ==> final(pubsub).topics()[t]
                        == old(pubsub).topics()[t]
                &&& final(pubsub).topics()[topic@].type_id == type_id
                &&& final(pubsub).topics()[topic@].subscribers@ == if old(pubsub).topics().contains_key(topic@) {
                    old(pubsub).topics()[topic@].subscribers@
                } else {
                    Seq::<Subscriber<F>>::empty()
                }.push(Subscriber { id: old(pubsub).next_id(), send_fn })
            },
        },
{
    match pubsub.subscribe(topic, type_id, send_fn) {
        Ok(_) => Ok(()),
        Err(e) => Err(to_mini_err(e)),
    }
}

/// Where a message of type `type_id` published to `topic` goes: `Ok(None)` when
/// nobody subscribed; refused when the topic carries another type.
pub fn publish_targets<'a, F>(pubsub: &'a PubSub<F>, topic: &str, type_id: &TypeId) -> (r: Result<
    Option<&'a Vec<Subscriber<F>>>,
    SpeareErr,
>)
    ensures
        match r {
            Ok(None) => !pubsub.topics().contains_key(topic@),
            Ok(Some(subs)) => {
                &&& pubsub.topics().contains_key(topic@)
                &&& pubsub.topics()[topic@].type_id == *type_id
                &&& *subs == pubsub.topics()[topic@].subscribers
            },
            Err(e) => {
                &&& pubsub.topics().contains_key(topic@)
                &&& pubsub.topics()[topic@].type_id != *type_id
                &&& e matches SpeareErr::TypeMismatch { topic: t } && t@ == topic@
            },
        },
{
    match pubsub.subscribers_for(topic, type_id) {
        Ok(r) => Ok(r),
        Err(e) => Err(to_mini_err(e)),
    }
}

} // verus!
