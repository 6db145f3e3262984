//! Handler replies, failed asks, and how a process comes to an end.
use vstd::prelude::*;

verus! {

/// A handler's result that carries a reply.
pub fn reply<T, E>(item: T) -> (r: Result<Option<T>, E>)
    ensures
        r == Ok::<Option<T>, E>(Some(item)),
{
    Ok(Some(item))
}

/// A handler's result that carries no reply (yet).
pub fn noreply<T, E>() -> (r: Result<Option<T>, E>)
    ensures
        r == Ok::<Option<T>, E>(None),
{
    Ok(None)
}

/// Why an ask failed; `E` is the handler's error type.
#[derive(Debug)]
pub enum AskErr<E> {
    /// The process had exited before the message could be delivered.
    Exited,
    /// The handler finished without replying.
    NoReply,
    /// The handler failed.
    Handler(E),
}

/// How an ask ends: `delivered` tells whether the message reached the process,
/// and `answer` is what came back on the reply channel (`None` when it closed).
pub open spec fn ask_result<T, E>(delivered: bool, answer: Option<Result<Option<T>, E>>) -> Result<T, AskErr<E>> {
    if !delivered {
        Err(AskErr::Exited)
    } else {
        match answer {
            None => Err(AskErr::NoReply),
            Some(Err(e)) => Err(AskErr::Handler(e)),
            Some(Ok(Some(v))) => Ok(v),
            Some(Ok(None)) => Err(AskErr::NoReply),
        }
    }
}

/// Maps the outcome of an ask to its result. A handler that returns no reply
/// sends nothing back, so `Some(Ok(None))` never arrives.
pub fn ask_outcome<T, E>(delivered: bool, answer: Option<Result<Option<T>, E>>) -> (r: Result<T, AskErr<E>>)
    requires
        delivered ==> !(answer matches Some(Ok(None))),
    ensures
        r == ask_result(delivered, answer),
{
    if !delivered {
        return Err(AskErr::Exited);
    }
    match answer {
        None => Err(AskErr::NoReply),
        Some(Err(e)) => Err(AskErr::Handler(e)),
        Some(Ok(Some(v))) => Ok(v),
        Some(Ok(None)) => Err(AskErr::NoReply),
    }
}

/// Whether a handler's result is sent back to an asker: everything but "no reply".
pub fn sends_reply<T, E>(res: &Result<Option<T>, E>) -> (r: bool)
    ensures
        r == !(res matches Ok(None)),
{
    match res {
        Ok(None) => false,
        _ => true,
    }
}

/// How a process came to an end.
pub enum ExitReason<E> {
    /// The process came to the end of its execution without any errors.
    Normal,
    /// An intentional stop, interrupting the process.
    Shutdown,
    /// The process exited with an error.
    Error(E),
}

impl<E: Clone> Clone for ExitReason<E> {
    fn clone(&self) -> (r: Self)
        ensures
            self is Normal ==> r is Normal,
            self is Shutdown ==> r is Shutdown,
            self is Error ==> r is Error,
            self matches ExitReason::Error(e) ==> r matches ExitReason::Error(e2) && cloned(*e, e2),
    {
        match self {
            ExitReason::Normal => ExitReason::Normal,
            ExitReason::Shutdown => ExitReason::Shutdown,
            ExitReason::Error(e) => ExitReason::Error(e.clone()),
        }
    }
}

} // verus!
