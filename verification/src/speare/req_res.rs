//! Failures of a request-response exchange.
use vstd::prelude::*;

verus! {

/// Represents a failure when waiting for a `Response<_>`.
#[derive(Debug)]
pub enum ReqErr {
    /// Request object was dropped before replying.
    Dropped,
    /// Timed out waiting for response.
    Timeout,
}

impl ReqErr {
    /// The error's message.
    pub fn message(&self) -> (r: &'static str)
        ensures
            self is Dropped ==> r@ == "Request object dropped before replying."@,
            self is Timeout ==> r@ == "Timed out before receiving response."@,
    {
        match self {
            ReqErr::Dropped => {
                proof {
                    reveal_strlit("Request object dropped before replying.");
                }
                "Request object dropped before replying."
            },
            ReqErr::Timeout => {
                proof {
                    reveal_strlit("Timed out before receiving response.");
                }
                "Timed out before receiving response."
            },
        }
    }
}

/// How a wait for a response ends: the reply, or `Dropped` when the request
/// was dropped first, or `Timeout` when the deadline passed first.
pub fn response_outcome<T>(within_deadline: bool, received: Option<T>) -> (r: Result<T, ReqErr>)
    ensures
        !within_deadline ==> r == Err::<T, ReqErr>(ReqErr::Timeout),
        within_deadline ==> match received {
            Some(v) => r == Ok::<T, ReqErr>(v),
            None => r == Err::<T, ReqErr>(ReqErr::Dropped),
        },
{
    if !within_deadline {
        return Err(ReqErr::Timeout);
    }
    match received {
        Some(v) => Ok(v),
        None => Err(ReqErr::Dropped),
    }
}

} // verus!
