//! The life of one process under its supervisor: control messages, handler
//! failures reported upward, and what follows the end of a run.
use vstd::prelude::*;
use crate::process_api::exit::{ExitReason, SharedErr};

verus! {

/// What a parent or a handle asks of a process; `R` carries a restart's timing
/// and synchronisation.
pub enum ProcAction<R> {
    Restart(R),
    Stop,
}

/// A control message: a child's error (with the acknowledgement owed for it),
/// or a request from the parent or a handle.
pub enum ProcMsg<X, A, R> {
    FromChild { child_id: u64, err: X, ack: A },
    FromParent(ProcAction<R>),
    FromHandle(ProcAction<R>),
}

/// What a control message asks of the running process.
pub enum ControlStep<X, A> {
    /// Nothing: keep running.
    Continue,
    /// A child failed: supervise it (see `plan_for_error`), owing `ack`.
    ChildFailed { child_id: u64, err: X, ack: A },
}

/// One run of a process, from `init` to the end of its message loop.
pub struct ProcRun<E, R> {
    pub exit_reason: Option<ExitReason<E>>,
    pub restart: Option<R>,
    pub ended: bool,
}

/// A reason already given stays; otherwise `d`.
pub open spec fn reason_or<E>(r: Option<ExitReason<E>>, d: ExitReason<E>) -> Option<ExitReason<E>> {
    match r {
        Some(x) => Some(x),
        None => Some(d),
    }
}

/// The run after a control message, for a supervised process.
pub open spec fn controlled<E, R, X, A>(run: ProcRun<E, R>, msg: ProcMsg<X, A, R>) -> ProcRun<E, R> {
    match msg {
        ProcMsg::FromHandle(ProcAction::Stop) => ProcRun { exit_reason: Some(ExitReason::Handle), ended: true, ..run },
        ProcMsg::FromParent(ProcAction::Stop) => ProcRun {
            exit_reason: reason_or(run.exit_reason, ExitReason::Parent),
            ended: true,
            ..run
        },
        ProcMsg::FromParent(ProcAction::Restart(r)) => ProcRun {
            exit_reason: reason_or(run.exit_reason, ExitReason::Parent),
            restart: Some(r),
            ended: true,
        },
        _ => run,
    }
}

/// The run after a control message, for a node's top-level process: any stop
/// ends it with reason `Handle`; restarts are not for it.
pub open spec fn root_controlled<E, R, X, A>(run: ProcRun<E, R>, msg: ProcMsg<X, A, R>) -> ProcRun<E, R> {
    match msg {
        ProcMsg::FromHandle(ProcAction::Stop) => ProcRun { exit_reason: Some(ExitReason::Handle), ended: true, ..run },
        ProcMsg::FromParent(ProcAction::Stop) => ProcRun { exit_reason: Some(ExitReason::Handle), ended: true, ..run },
        _ => run,
    }
}

/// The reason an ended run reports: `Handle` when none was given.
pub open spec fn final_reason<E, R>(run: ProcRun<E, R>) -> ExitReason<E> {
    match run.exit_reason {
        Some(r) => r,
        None => ExitReason::Handle,
    }
}

impl<E, R> ProcRun<E, R> {
    pub fn new() -> (r: Self)
        ensures
            r.exit_reason is None,
            r.restart is None,
            !r.ended,
    {
        ProcRun { exit_reason: None, restart: None, ended: false }
    }

    /// A control message arrived at a supervised process.
    pub fn control<X, A>(&mut self, msg: ProcMsg<X, A, R>) -> (r: ControlStep<X, A>)
        ensures
            *final(self) == controlled(*old(self), msg),
            match msg {
                ProcMsg::FromChild { child_id, err, ack } => r == (ControlStep::ChildFailed { child_id, err, ack }),
                _ => r is Continue,
            },
    {
        match msg {
            ProcMsg::FromHandle(ProcAction::Stop) => {
                self.exit_reason = Some(ExitReason::Handle);
                self.ended = true;
                ControlStep::Continue
            },
            ProcMsg::FromParent(ProcAction::Stop) => {
                if self.exit_reason.is_none() {
                    self.exit_reason = Some(ExitReason::Parent);
                }
                self.ended = true;
                ControlStep::Continue
            },
            ProcMsg::FromParent(ProcAction::Restart(r)) => {
                if self.exit_reason.is_none() {
                    self.exit_reason = Some(ExitReason::Parent);
                }
                self.restart = Some(r);
                self.ended = true;
                ControlStep::Continue
            },
            ProcMsg::FromChild { child_id, err, ack } => ControlStep::ChildFailed { child_id, err, ack },
            ProcMsg::FromHandle(ProcAction::Restart(_)) => ControlStep::Continue,
        }
    }

    /// A control message arrived at a node's top-level process.
    pub fn root_control<X, A>(&mut self, msg: ProcMsg<X, A, R>) -> (r: ControlStep<X, A>)
        ensures
            *final(self) == root_controlled(*old(self), msg),
            match msg {
                ProcMsg::FromChild { child_id, err, ack } => r == (ControlStep::ChildFailed { child_id, err, ack }),
                _ => r is Continue,
            },
    {
        match msg {
            ProcMsg::FromHandle(ProcAction::Stop) => {
                self.exit_reason = Some(ExitReason::Handle);
                self.ended = true;
                ControlStep::Continue
            },
            ProcMsg::FromParent(ProcAction::Stop) => {
                self.exit_reason = Some(ExitReason::Handle);
                self.ended = true;
                ControlStep::Continue
            },
            ProcMsg::FromChild { child_id, err, ack } => ControlStep::ChildFailed { child_id, err, ack },
            _ => ControlStep::Continue,
        }
    }

    /// A supervised process's handler failed: the error becomes the exit reason,
    /// and a copy is returned to be reported to the parent, whose directive
    /// decides what follows; the run goes on meanwhile.
    pub fn handler_failed(&mut self, err: SharedErr<E>) -> (report: SharedErr<E>)
        ensures
            report.error() == err.error(),
            final(self).exit_reason matches Some(ExitReason::Error(e)) && e.error() == err.error(),
            final(self).restart == old(self).restart,
            final(self).ended == old(self).ended,
    {
        let report = err.clone();
        self.exit_reason = Some(ExitReason::Error(err));
        report
    }

    /// A node's top-level process's handler failed: unsupervised, it stops.
    pub fn root_handler_failed(&mut self, err: SharedErr<E>)
        ensures
            final(self).exit_reason matches Some(ExitReason::Error(e)) && e.error() == err.error(),
            final(self).restart == old(self).restart,
            final(self).ended,
    {
        self.exit_reason = Some(ExitReason::Error(err));
        self.ended = true;
    }

    /// A channel that the run reads from closed: the run is over.
    pub fn close(&mut self)
        ensures
            final(self).exit_reason == old(self).exit_reason,
            final(self).restart == old(self).restart,
            final(self).ended,
    {
        self.ended = true;
    }

    /// Ends the run: the reason to give the process's `exit` (`Handle` when none
    /// was given) and the restart to carry out, if any.
    pub fn finish(self) -> (r: (ExitReason<E>, Option<R>))
        ensures
            r.0 == final_reason(self),
            r.1 == self.restart,
    {
        let reason = match self.exit_reason {
            Some(r) => r,
            None => ExitReason::Handle,
        };
        (reason, self.restart)
    }
}

/// After a failed `init`, the parent's answer decides: a restart is carried
/// out, a stop is final.
pub fn restart_after_failed_init<R>(answer: ProcAction<R>) -> (r: Option<R>)
    ensures
        match answer {
            ProcAction::Restart(x) => r == Some(x),
            ProcAction::Stop => r is None,
        },
{
    match answer {
        ProcAction::Restart(x) => Some(x),
        ProcAction::Stop => None,
    }
}

/// A stop through a handle ends the run with reason `Handle`, even after an
/// error; a stop or restart from the parent keeps an error already recorded.
pub proof fn law_stop_reasons<E, R, X, A>(run: ProcRun<E, R>, r: R)
    ensures
        final_reason(controlled(run, ProcMsg::<X, A, R>::FromHandle(ProcAction::Stop))) == ExitReason::<E>::Handle,
        run.exit_reason is Some ==> controlled(run, ProcMsg::<X, A, R>::FromParent(ProcAction::Stop)).exit_reason
            == run.exit_reason,
        run.exit_reason is Some ==> controlled(run, ProcMsg::<X, A, R>::FromParent(ProcAction::Restart(r))).exit_reason
            == run.exit_reason,
        controlled(run, ProcMsg::<X, A, R>::FromParent(ProcAction::Restart(r))).restart == Some(r),
{
}

/// A stop, from a handle or from the parent, ends a supervised process's run
/// whatever state it is in, and so does a restart from the parent; a top-level
/// process's run ends on either stop too.
pub proof fn law_stops_end_the_run<E, R, X, A>(run: ProcRun<E, R>, r: R)
    ensures
        controlled(run, ProcMsg::<X, A, R>::FromHandle(ProcAction::Stop)).ended,
        controlled(run, ProcMsg::<X, A, R>::FromParent(ProcAction::Stop)).ended,
        controlled(run, ProcMsg::<X, A, R>::FromParent(ProcAction::Restart(r))).ended,
        root_controlled(run, ProcMsg::<X, A, R>::FromHandle(ProcAction::Stop)).ended,
        root_controlled(run, ProcMsg::<X, A, R>::FromParent(ProcAction::Stop)).ended,
        final_reason(root_controlled(run, ProcMsg::<X, A, R>::FromHandle(ProcAction::Stop))) == ExitReason::<E>::Handle,
{
}

/// A child's failure never ends its parent's run by itself.
pub proof fn law_child_failure_keeps_running<E, R, X, A>(run: ProcRun<E, R>, child_id: u64, err: X, ack: A)
    ensures
        controlled(run, ProcMsg::<X, A, R>::FromChild { child_id, err, ack }) == run,
        root_controlled(run, ProcMsg::<X, A, R>::FromChild { child_id, err, ack }) == run,
{
}

/// A top-level process's run after a series of control messages.
pub open spec fn root_after<E, R, X, A>(run: ProcRun<E, R>, msgs: Seq<ProcMsg<X, A, R>>) -> ProcRun<E, R>
    decreases msgs.len(),
{
    if msgs.len() == 0 {
        run
    } else {
        root_controlled(root_after(run, msgs.drop_last()), msgs.last())
    }
}

/// A node's top-level process is never restarted: whatever control messages
/// reach it, its run carries no restart, so `finish` hands none out and the
/// process stops for good (handler failures and closed channels keep the
/// restart as it is too).
pub proof fn law_root_never_restarts<E, R, X, A>(run: ProcRun<E, R>, msgs: Seq<ProcMsg<X, A, R>>)
    requires
        run.restart is None,
    ensures
        root_after(run, msgs).restart is None,
    decreases msgs.len(),
{
    if msgs.len() > 0 {
        law_root_never_restarts(run, msgs.drop_last());
    }
}

} // verus!
