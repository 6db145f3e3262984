//! Why an actor exited.
use vstd::prelude::*;

verus! {

/// Enumerates the reasons why an actor might exit; `E` is the actor's error type.
#[derive(Debug)]
pub enum ExitReason<E> {
    /// The actor exited due to manual request through a `Handle<_>`.
    Handle,
    /// The actor exited due to a request from its parent as a part of its supervision strategy.
    Parent,
    /// The actor exited due to error.
    Error(E),
}

impl<E> ExitReason<E> {
    /// The text that describes the reason, or `None` for an error, which
    /// describes itself.
    pub fn description(&self) -> (r: Option<&'static str>)
        ensures
            r is None <==> self is Error,
            self is Handle ==> r == Some("manual exit through Handle::stop"),
            self is Parent ==> r == Some("exit request from parent supervision strategy"),
    {
        match self {
            ExitReason::Handle => Some("manual exit through Handle::stop"),
            ExitReason::Parent => Some("exit request from parent supervision strategy"),
            ExitReason::Error(_) => None,
        }
    }
}

} // verus!
