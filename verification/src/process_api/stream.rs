//! Streams consumed by a process: where their items go, and when they end it.
use vstd::prelude::*;

verus! {

/// A sink that drops every item.
pub struct NoSink;

/// What a stream's next item asks of the process that consumes it.
#[derive(Debug)]
pub enum SourceStep<T, E> {
    /// Hand the item to the sink, and read on.
    Deliver(T),
    /// The stream failed: the process fails with its error.
    Fail(E),
    /// The stream is exhausted: the process stops itself.
    Finished,
}

/// Decides on the stream's next item.
pub fn source_step<T, E>(item: Option<Result<T, E>>) -> (r: SourceStep<T, E>)
    ensures
        match item {
            None => r is Finished,
            Some(Ok(t)) => r == SourceStep::<T, E>::Deliver(t),
            Some(Err(e)) => r == SourceStep::<T, E>::Fail(e),
        },
{
    match item {
        None => SourceStep::Finished,
        Some(Ok(t)) => SourceStep::Deliver(t),
        Some(Err(e)) => SourceStep::Fail(e),
    }
}

} // verus!
