//! What a parent hears when a child terminates with an error.
use vstd::prelude::*;

verus! {

/// Called when a child terminates because of an error it will not be restarted from.
pub trait OnErrTerminate<E>: Send + 'static {
    fn on_err_terminate(&self, err: &E);
}

/// Nobody listens.
pub struct NoWatch;

impl<E> OnErrTerminate<E> for NoWatch {
    fn on_err_terminate(&self, _err: &E) {
    }
}

} // verus!
