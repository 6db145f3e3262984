//! The life of one actor: the bookkeeping that its context carries across
//! restarts, and the decisions taken while it runs and when it exits.
//!
//! A running system drives these functions: it hands each control message,
//! handler outcome and closed channel to the current [`Run`], and when the run
//! has ended it carries out the [`Exit`] that [`Run::finish`] returns.
use vstd::prelude::*;
use crate::children::ChildTable;
use crate::keyed::{key_index, values_of};
use crate::speare::exit::ExitReason;
use crate::speare::restart::{backoff_wait, limit_equals, restart_after, Backoff, Limit, Restart, Supervision};

verus! {

/// What a parent or a handle asks of an actor.
#[derive(Debug)]
pub enum ProcAction<A> {
    Restart,
    /// Stop, then acknowledge through `A`.
    Stop(A),
}

/// A control message, read before any other input.
#[derive(Debug)]
pub enum ProcMsg<A> {
    /// Sent from a child once it terminates.
    ChildTerminated { child_id: u64 },
    FromParent(ProcAction<A>),
    FromHandle(ProcAction<A>),
}

/// What an actor's context keeps from one run to the next.
pub struct CtxCore<C> {
    /// This actor's id among its parent's children.
    pub id: u64,
    /// Whether a parent is told when this actor terminates.
    pub has_parent: bool,
    /// This actor's children, reached through values of type `C`.
    pub children: ChildTable<C>,
    pub supervision: Supervision,
    /// How many times this actor exited with an error.
    pub restarts: u64,
    /// The name under which this actor is registered, if any.
    pub registry_key: Option<String>,
    /// The topic subscriptions this actor holds, by topic and subscriber id.
    pub subscription_ids: Vec<(String, u64)>,
}

impl<C> CtxCore<C> {
    /// The context of a node's root: id 0, no parent, `Stop` supervision.
    pub fn root() -> (r: Self)
        ensures
            r.id == 0,
            !r.has_parent,
            r.children.total() == 0,
            r.children.children_map() == Map::<u64, C>::empty(),
            r.supervision == Supervision::Stop,
            r.restarts == 0,
            r.registry_key is None,
            r.subscription_ids@.len() == 0,
    {
        CtxCore {
            id: 0,
            has_parent: false,
            children: ChildTable::new(),
            supervision: Supervision::Stop,
            restarts: 0,
            registry_key: None,
            subscription_ids: Vec::new(),
        }
    }

    /// The context of a freshly spawned child.
    pub fn child(id: u64, supervision: Supervision, registry_key: Option<String>) -> (r: Self)
        ensures
            r.id == id,
            r.has_parent,
            r.children.total() == 0,
            r.children.children_map() == Map::<u64, C>::empty(),
            r.supervision == supervision,
            r.restarts == 0,
            r.registry_key == registry_key,
            r.subscription_ids@.len() == 0,
    {
        CtxCore {
            id,
            has_parent: true,
            children: ChildTable::new(),
            supervision,
            restarts: 0,
            registry_key,
            subscription_ids: Vec::new(),
        }
    }
}

impl<C> CtxCore<C> {
    /// Records a new child, reached through `child_tx`, under the next id, and
    /// returns the child's own context.
    pub fn spawn_child<C2>(&mut self, child_tx: C, supervision: Supervision, registry_key: Option<String>) -> (r: CtxCore<C2>)
        requires
            old(self).children.total() < u64::MAX,
        ensures
            r.id == old(self).children.total() + 1,
            r.has_parent,
            r.children.total() == 0,
            r.children.children_map() == Map::<u64, C2>::empty(),
            r.supervision == supervision,
            r.restarts == 0,
            r.registry_key == registry_key,
            r.subscription_ids@.len() == 0,
            final(self).children.total() == r.id,
            final(self).children.children_map() == old(self).children.children_map().insert(r.id, child_tx),
            final(self).id == old(self).id,
            final(self).has_parent == old(self).has_parent,
            final(self).supervision == old(self).supervision,
            final(self).restarts == old(self).restarts,
            final(self).registry_key == old(self).registry_key,
            final(self).subscription_ids == old(self).subscription_ids,
    {
        let id = self.children.add_child(child_tx);
        CtxCore::child(id, supervision, registry_key)
    }
}

/// One run of an actor, from its start to the end of its message loop.
pub struct Run<E, A> {
    /// Whether, and after how long, the actor starts again.
    pub restart: Restart,
    pub exit_reason: Option<ExitReason<E>>,
    /// The acknowledgement owed to whoever asked the actor to stop.
    pub stop_ack: Option<A>,
    /// Whether the actor's `init` succeeded.
    pub started: bool,
    /// Whether the run is over.
    pub ended: bool,
}

/// Where a run begins.
pub open spec fn initial_run<E, A>() -> Run<E, A> {
    Run { restart: Restart::No, exit_reason: None, stop_ack: None, started: false, ended: false }
}

/// The run after `init` succeeded.
pub open spec fn started_run<E, A>(run: Run<E, A>) -> Run<E, A> {
    Run { started: true, ..run }
}

/// The run after a failure that ends it: the supervision strategy decides on a restart.
pub open spec fn failed_run<E, A>(run: Run<E, A>, err: E, supervision: Supervision, restarts: u64) -> Run<E, A> {
    Run {
        restart: restart_after(supervision, restarts as int),
        exit_reason: Some(ExitReason::Error(err)),
        ended: true,
        ..run
    }
}

/// The run after a message was handled: an error ends it, unless the strategy is `Resume`.
pub open spec fn handled_run<E, A>(
    run: Run<E, A>,
    result: Result<(), E>,
    supervision: Supervision,
    restarts: u64,
) -> Run<E, A> {
    match result {
        Ok(_) => run,
        Err(e) => if supervision is Resume {
            run
        } else {
            failed_run(run, e, supervision, restarts)
        },
    }
}

/// A reason already given stays; otherwise `d`.
pub open spec fn reason_or<E>(r: Option<ExitReason<E>>, d: ExitReason<E>) -> Option<ExitReason<E>> {
    match r {
        Some(x) => Some(x),
        None => Some(d),
    }
}

/// The run after a control message.
pub open spec fn controlled_run<E, A>(run: Run<E, A>, msg: ProcMsg<A>) -> Run<E, A> {
    match msg {
        ProcMsg::FromHandle(ProcAction::Stop(a)) => Run {
            exit_reason: Some(ExitReason::Handle),
            stop_ack: Some(a),
            ended: true,
            ..run
        },
        ProcMsg::FromParent(ProcAction::Stop(a)) => Run {
            exit_reason: reason_or(run.exit_reason, ExitReason::Parent),
            stop_ack: Some(a),
            ended: true,
            ..run
        },
        ProcMsg::FromParent(ProcAction::Restart) => Run {
            exit_reason: reason_or(run.exit_reason, ExitReason::Parent),
            restart: Restart::In(0),
            ended: true,
            ..run
        },
        ProcMsg::FromHandle(ProcAction::Restart) => Run {
            exit_reason: reason_or(run.exit_reason, ExitReason::Handle),
            restart: Restart::In(0),
            ended: true,
            ..run
        },
        ProcMsg::ChildTerminated { .. } => run,
    }
}

/// The reason an ended run reports: `Handle` when none was given.
pub open spec fn final_reason<E, A>(run: Run<E, A>) -> ExitReason<E> {
    match run.exit_reason {
        Some(r) => r,
        None => ExitReason::Handle,
    }
}

/// What happens to an actor once it has exited.
#[derive(Debug)]
pub enum AfterExit {
    /// Start again after this many nanoseconds, keeping the context.
    RestartIn(u128),
    /// Stay down: leave the registry under `deregister`, and tell the parent
    /// that child `notify_parent` terminated.
    Terminate { deregister: Option<String>, notify_parent: Option<u64> },
}

/// The steps that end a run, in the order they are taken: stop the children and
/// wait for them, tell the watcher about an error, call the actor's `exit` (with
/// the actor itself when `with_actor`), acknowledge a stop request, then follow `after`.
pub struct Exit<E, A, C> {
    pub stop_children: Vec<C>,
    pub reason: ExitReason<E>,
    pub notify_watch: bool,
    pub with_actor: bool,
    pub stop_ack: Option<A>,
    pub after: AfterExit,
}

/// One of the steps that end a run before `after` is followed.
#[derive(Debug, Clone, Copy)]
pub enum ExitAction {
    /// Stop every child handed out in `stop_children`, and wait until each has exited.
    StopChildren,
    /// Tell the watcher about the error.
    NotifyWatch,
    /// Call the actor's `exit`.
    CallExit,
    /// Acknowledge the stop request.
    AckStop,
}

/// The steps that end a run, in order: the children are stopped and awaited
/// first, then the watcher hears of the error (when it does), then the actor's
/// own `exit` runs, then a stop request is acknowledged (when one is owed).
pub open spec fn exit_order(notify_watch: bool, ack: bool) -> Seq<ExitAction> {
    let first = seq![ExitAction::StopChildren];
    let watched = if notify_watch { first.push(ExitAction::NotifyWatch) } else { first };
    let exited = watched.push(ExitAction::CallExit);
    if ack { exited.push(ExitAction::AckStop) } else { exited }
}

impl<E, A, C> Exit<E, A, C> {
    /// The order in which this exit's steps are taken.
    pub open spec fn order(&self) -> Seq<ExitAction> {
        exit_order(self.notify_watch, self.stop_ack is Some)
    }

    /// The steps to take, in order, before following `after`.
    pub fn steps(&self) -> (r: Vec<ExitAction>)
        ensures
            r@ == self.order(),
    {
        let mut r: Vec<ExitAction> = Vec::new();
        r.push(ExitAction::StopChildren);
        if self.notify_watch {
            r.push(ExitAction::NotifyWatch);
        }
        r.push(ExitAction::CallExit);
        if self.stop_ack.is_some() {
            r.push(ExitAction::AckStop);
        }
        proof {
            assert(r@ =~= self.order());
        }
        r
    }
}

/// The children of an exiting actor are stopped and awaited before anything
/// else, and in particular before the actor's own `exit` runs; each step is
/// taken once.
pub proof fn law_children_stop_before_exit(notify_watch: bool, ack: bool)
    ensures
        exit_order(notify_watch, ack)[0] is StopChildren,
        exit_order(notify_watch, ack)[if notify_watch { 2int } else { 1int }] is CallExit,
        forall|i: int| 0 < i < exit_order(notify_watch, ack).len() ==> !(#[trigger] exit_order(notify_watch, ack)[i] is StopChildren),
        forall|i: int| 0 <= i < exit_order(notify_watch, ack).len() && i != (if notify_watch { 2int } else { 1int })
            ==> !(#[trigger] exit_order(notify_watch, ack)[i] is CallExit),
{
}

/// What follows an ended run.
pub open spec fn after_exit<E, A>(run: Run<E, A>, registry_key: Option<String>, has_parent: bool, id: u64) -> AfterExit {
    match run.restart {
        Restart::In(d) => AfterExit::RestartIn(d),
        Restart::No => if has_parent {
            AfterExit::Terminate { deregister: registry_key, notify_parent: Some(id) }
        } else {
            AfterExit::Terminate { deregister: None, notify_parent: None }
        },
    }
}

/// Whether the watcher hears of the run's end: only when it ends in an error for good.
pub open spec fn watch_fires<E, A>(run: Run<E, A>) -> bool {
    run.restart is No && final_reason(run) is Error
}

impl<E, A> Run<E, A> {
    pub fn new() -> (r: Self)
        ensures
            r == initial_run::<E, A>(),
    {
        Run { restart: Restart::No, exit_reason: None, stop_ack: None, started: false, ended: false }
    }

    /// `init` succeeded.
    pub fn start(&mut self)
        ensures
            *final(self) == started_run(*old(self)),
    {
        self.started = true;
    }

    /// `init` or `sources` failed, or a failure ends the run.
    pub fn fail<C>(&mut self, err: E, core: &CtxCore<C>)
        requires
            core.supervision is Restart ==> core.restarts < u64::MAX,
        ensures
            *final(self) == failed_run(*old(self), err, core.supervision, core.restarts),
    {
        self.restart = Restart::from_supervision(core.supervision, core.restarts);
        self.exit_reason = Some(ExitReason::Error(err));
        self.ended = true;
    }

    /// A message, from the mailbox, a source or a task, was handled with `result`.
    pub fn handled<C>(&mut self, result: Result<(), E>, core: &CtxCore<C>)
        requires
            core.supervision is Restart ==> core.restarts < u64::MAX,
        ensures
            *final(self) == handled_run(*old(self), result, core.supervision, core.restarts),
    {
        match result {
            Ok(_) => {},
            Err(e) => {
                if let Supervision::Resume = core.supervision {
                } else {
                    self.fail(e, core);
                }
            },
        }
    }

    /// A control message arrived. A terminated child leaves the table.
    pub fn control<C>(&mut self, msg: ProcMsg<A>, core: &mut CtxCore<C>)
        ensures
            *final(self) == controlled_run(*old(self), msg),
            final(core).id == old(core).id,
            final(core).has_parent == old(core).has_parent,
            final(core).supervision == old(core).supervision,
            final(core).restarts == old(core).restarts,
            final(core).registry_key == old(core).registry_key,
            final(core).subscription_ids == old(core).subscription_ids,
            match msg {
                ProcMsg::ChildTerminated { child_id } => {
                    &&& final(core).children.children_map() == old(core).children.children_map().remove(child_id)
                    &&& final(core).children.total() == if old(core).children.children_map().contains_key(child_id) {
                        (old(core).children.total() - 1) as u64
                    } else {
                        old(core).children.total()
                    }
                },
                _ => final(core).children == old(core).children,
            },
    {
        match msg {
            ProcMsg::FromHandle(ProcAction::Stop(a)) => {
                self.exit_reason = Some(ExitReason::Handle);
                self.stop_ack = Some(a);
                self.ended = true;
            },
            ProcMsg::FromParent(ProcAction::Stop(a)) => {
                if self.exit_reason.is_none() {
                    self.exit_reason = Some(ExitReason::Parent);
                }
                self.stop_ack = Some(a);
                self.ended = true;
            },
            ProcMsg::FromParent(ProcAction::Restart) => {
                if self.exit_reason.is_none() {
                    self.exit_reason = Some(ExitReason::Parent);
                }
                self.restart = Restart::In(0);
                self.ended = true;
            },
            ProcMsg::FromHandle(ProcAction::Restart) => {
                if self.exit_reason.is_none() {
                    self.exit_reason = Some(ExitReason::Handle);
                }
                self.restart = Restart::In(0);
                self.ended = true;
            },
            ProcMsg::ChildTerminated { child_id } => {
                core.children.child_terminated(child_id);
            },
        }
    }

    /// A channel that the run reads from closed: the run is over.
    pub fn close(&mut self)
        ensures
            *final(self) == (Run { ended: true, ..*old(self) }),
    {
        self.ended = true;
    }

    /// Whether the run ends in an error.
    pub fn ends_in_error(&self) -> (r: bool)
        ensures
            r == final_reason(*self) is Error,
    {
        match &self.exit_reason {
            Some(ExitReason::Error(_)) => true,
            _ => false,
        }
    }

    /// Ends the run: the children are taken out to be stopped, an error counts
    /// as a restart, and a terminating child leaves the registry.
    pub fn finish<C>(self, core: &mut CtxCore<C>) -> (r: Exit<E, A, C>)
        requires
            final_reason(self) is Error ==> old(core).restarts < u64::MAX,
        ensures
            r.stop_children@ == values_of(old(core).children.entries()),
            r.order() == exit_order(watch_fires(self), self.stop_ack is Some),
            r.reason == final_reason(self),
            r.notify_watch == watch_fires(self),
            r.with_actor == self.started,
            r.stop_ack == self.stop_ack,
            r.after == after_exit(self, old(core).registry_key, old(core).has_parent, old(core).id),
            final(core).children.total() == 0,
            final(core).children.children_map() == Map::<u64, C>::empty(),
            final(core).restarts == if final_reason(self) is Error {
                (old(core).restarts + 1) as u64
            } else {
                old(core).restarts
            },
            final(core).registry_key == if self.restart is No && old(core).has_parent {
                None
            } else {
                old(core).registry_key
            },
            final(core).id == old(core).id,
            final(core).has_parent == old(core).has_parent,
            final(core).supervision == old(core).supervision,
            final(core).subscription_ids == old(core).subscription_ids,
    {
        let stop_children = core.children.clear_all();
        let reason = match self.exit_reason {
            Some(r) => r,
            None => ExitReason::Handle,
        };
        let is_err = match &reason {
            ExitReason::Error(_) => true,
            _ => false,
        };
        if is_err {
            core.restarts = core.restarts + 1;
        }
        let notify_watch = match self.restart {
            Restart::No => is_err,
            Restart::In(_) => false,
        };
        let after = match self.restart {
            Restart::In(d) => AfterExit::RestartIn(d),
            Restart::No => {
                if core.has_parent {
                    let key = core.registry_key.take();
                    AfterExit::Terminate { deregister: key, notify_parent: Some(core.id) }
                } else {
                    AfterExit::Terminate { deregister: None, notify_parent: None }
                }
            },
        };
        Exit {
            stop_children,
            reason,
            notify_watch,
            with_actor: self.started,
            stop_ack: self.stop_ack,
            after,
        }
    }
}

/// Under `Resume`, a handler error leaves the run going as if nothing happened.
pub proof fn law_resume_ignores_handler_errors<E, A>(run: Run<E, A>, err: E, restarts: u64)
    ensures
        handled_run(run, Err(err), Supervision::Resume, restarts) == run,
{
}

/// A handled message that succeeded changes nothing.
pub proof fn law_success_changes_nothing<E, A>(run: Run<E, A>, supervision: Supervision, restarts: u64)
    ensures
        handled_run(run, Ok(()), supervision, restarts) == run,
{
}

/// A stop through a handle ends the run with reason `Handle`, keeps the
/// acknowledgement owed, and is not reported to the watcher.
pub proof fn law_handle_stop<E, A>(run: Run<E, A>, ack: A)
    ensures
        controlled_run(run, ProcMsg::FromHandle(ProcAction::Stop(ack))).ended,
        final_reason(controlled_run(run, ProcMsg::FromHandle(ProcAction::Stop(ack)))) == ExitReason::<E>::Handle,
        controlled_run(run, ProcMsg::FromHandle(ProcAction::Stop(ack))).stop_ack == Some(ack),
        !watch_fires(controlled_run(run, ProcMsg::FromHandle(ProcAction::Stop(ack)))),
{
}

/// A stop or restart from the parent on a run that has no reason yet ends it
/// with reason `Parent`; neither is reported to the watcher.
pub proof fn law_parent_requests<E, A>(run: Run<E, A>, ack: A)
    requires
        run.exit_reason is None,
    ensures
        final_reason(controlled_run(run, ProcMsg::FromParent(ProcAction::Stop(ack)))) == ExitReason::<E>::Parent,
        final_reason(controlled_run(run, ProcMsg::<A>::FromParent(ProcAction::Restart))) == ExitReason::<E>::Parent,
        !watch_fires(controlled_run(run, ProcMsg::FromParent(ProcAction::Stop(ack)))),
        !watch_fires(controlled_run(run, ProcMsg::<A>::FromParent(ProcAction::Restart))),
{
}

/// A stop from the parent ends the run whatever state it is in: the message
/// loop is left, the acknowledgement owed to the parent is kept for the exit,
/// and a reason already recorded (such as an error) is kept, else it is `Parent`.
pub proof fn law_parent_stop_ends_run<E, A>(run: Run<E, A>, ack: A)
    ensures
        controlled_run(run, ProcMsg::FromParent(ProcAction::Stop(ack))).ended,
        controlled_run(run, ProcMsg::FromParent(ProcAction::Stop(ack))).stop_ack == Some(ack),
        run.exit_reason is Some ==> controlled_run(run, ProcMsg::FromParent(ProcAction::Stop(ack))).exit_reason
            == run.exit_reason,
        run.exit_reason is None ==> final_reason(controlled_run(run, ProcMsg::FromParent(ProcAction::Stop(ack))))
            == ExitReason::<E>::Parent,
{
}

/// A restart request, from a handle or from the parent, starts the actor again
/// at once, whatever the supervision strategy, keeping its registration.
pub proof fn law_restart_request_is_immediate<E, A>(
    run: Run<E, A>,
    from_parent: bool,
    registry_key: Option<String>,
    has_parent: bool,
    id: u64,
)
    ensures
        ({
            let msg = if from_parent {
                ProcMsg::<A>::FromParent(ProcAction::Restart)
            } else {
                ProcMsg::<A>::FromHandle(ProcAction::Restart)
            };
            let r = controlled_run(run, msg);
            &&& r.ended
            &&& after_exit(r, registry_key, has_parent, id) == AfterExit::RestartIn(0)
            &&& !watch_fires(r)
        }),
{
}

/// A terminated child leaves the run going.
pub proof fn law_child_termination_keeps_running<E, A>(run: Run<E, A>, child_id: u64)
    ensures
        controlled_run(run, ProcMsg::<A>::ChildTerminated { child_id }) == run,
{
}

/// Under `Stop`, the first failure ends the actor for good: its parent hears of
/// it, it leaves the registry, and the watcher is told.
pub proof fn law_stop_supervision_terminates<E, A>(
    run: Run<E, A>,
    err: E,
    restarts: u64,
    registry_key: Option<String>,
    id: u64,
)
    ensures
        ({
            let r = failed_run(run, err, Supervision::Stop, restarts);
            &&& watch_fires(r)
            &&& final_reason(r) == ExitReason::Error(err)
            &&& after_exit(r, registry_key, true, id) == (AfterExit::Terminate {
                deregister: registry_key,
                notify_parent: Some(id),
            })
        }),
{
}

/// Under `Restart` with `max: Amount(n)`, a failure after `k` earlier failures
/// starts the actor again, silently, while `k + 1 < n`; at `k + 1 == n` the actor
/// stays down and the watcher is told.
pub proof fn law_restart_supervision_until_limit<E, A>(
    run: Run<E, A>,
    err: E,
    n: u64,
    backoff: Backoff,
    k: u64,
    registry_key: Option<String>,
    id: u64,
)
    requires
        k < n,
    ensures
        ({
            let r = failed_run(run, err, Supervision::Restart { max: Limit::Amount(n), backoff }, k);
            &&& (k + 1 < n) ==> !watch_fires(r) && after_exit(r, registry_key, true, id)
                == AfterExit::RestartIn(backoff_wait(backoff, k as int) as u128)
            &&& (k + 1 == n) ==> watch_fires(r) && after_exit(r, registry_key, true, id) is Terminate
        }),
{
}

/// An actor that exits stops every child it has: each child in its table is
/// among the children that `finish` hands out to stop, and they are stopped
/// before the actor's own `exit` runs (see [`Exit`]).
pub proof fn law_exit_stops_every_child<C>(core: CtxCore<C>, id: u64)
    requires
        core.children.children_map().contains_key(id),
    ensures
        values_of(core.children.entries()).contains(core.children.children_map()[id]),
{
    let s = core.children.entries();
    let i = key_index(s, id);
    assert(values_of(s)[i] == s[i].1);
}

} // verus!
