//! A transparent single-field wrapper for values that are moved between
//! execution contexts.
//!
//! The session's capture objects are handed from the owner context into
//! the platform's callback context; this wrapper marks such hand-offs in
//! the code. The cross-thread marker traits themselves are the embedding
//! application's concern.

use vstd::prelude::*;

verus! {

#[derive(Debug, Clone)]
pub struct UnsafeSendWrapper<T>(pub T);

impl<T> UnsafeSendWrapper<T> {
    pub fn new(value: T) -> (r: UnsafeSendWrapper<T>)
        ensures
            r.0 == value,
    {
        UnsafeSendWrapper(value)
    }

    /// Unwraps the contained value.
    pub fn take_inner(self) -> (r: T)
        ensures
            r == self.0,
    {
        self.0
    }

    /// Borrows the contained value.
    pub fn inner(&self) -> (r: &T)
        ensures
            r == self.0,
    {
        &self.0
    }
}

} // verus!
