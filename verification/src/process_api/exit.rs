//! Errors shared between an exiting process and its supervisor, and exit reasons.
use vstd::prelude::*;
use std::sync::Arc;

verus! {

/// A thin wrapper around `Arc<E>`: one error, shared by every clone.
pub struct SharedErr<E> {
    err: Arc<E>,
}

impl<E> SharedErr<E> {
    /// The shared error.
    pub closed spec fn error(&self) -> E {
        *self.err
    }

    pub fn new(e: E) -> (r: Self)
        ensures
            r.error() == e,
    {
        SharedErr { err: Arc::new(e) }
    }

    /// A reference to the shared error.
    pub fn get(&self) -> (r: &E)
        ensures
            *r == self.error(),
    {
        &*self.err
    }
}

impl<E> Clone for SharedErr<E> {
    fn clone(&self) -> (r: Self)
        ensures
            r.error() == self.error(),
    {
        SharedErr { err: Arc::clone(&self.err) }
    }
}

impl<E> std::ops::Deref for SharedErr<E> {
    type Target = E;

    fn deref(&self) -> (r: &E)
        ensures
            *r == self.error(),
    {
        &*self.err
    }
}

impl<E> AsRef<E> for SharedErr<E> {
    fn as_ref(&self) -> (r: &E)
        ensures
            *r == self.error(),
    {
        &*self.err
    }
}

/// Enumerates the reasons why a process might exit.
pub enum ExitReason<E> {
    /// Process exited due to manual request through a `Handle<_>`.
    Handle,
    /// Process exited due to a request from its parent process as a part of its supervision strategy.
    Parent,
    /// Process exited due to error.
    Error(SharedErr<E>),
}

} // verus!
