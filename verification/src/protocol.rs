//! Entity-specific wrapping of an application behavior.
//!
//! The wrapper carries the application's behavior and the drain-fence
//! acknowledgement. The protocol and event enums that forward commands and
//! system events to the behavior, and the behavior-trait implementation on
//! the wrapper, belong to the `behavior` crate's traits; that crate is not a
//! dependency of this library, so they are not provided here.

use vstd::prelude::*;

verus! {

/// Confirmation that an entity drain fence reached its behavior transition.
#[derive(Debug, Clone, Copy, PartialEq, Eq, Structural)]
pub struct DrainFenceAcknowledged;

/// Entity-runtime protocol composition around an application behavior.
pub struct EntityBehavior<B> {
    inner: B,
}

impl<B> EntityBehavior<B> {
    /// The wrapped behavior.
    pub closed spec fn wrapped(self) -> B {
        self.inner
    }

    /// Wrap an application behavior with entity command and drain protocols.
    pub fn new(inner: B) -> (behavior: Self)
        ensures
            behavior.wrapped() == inner,
    {
        Self { inner }
    }

    /// Borrow the wrapped behavior.
    pub fn inner(&self) -> (inner: &B)
        ensures
            *inner == self.wrapped(),
    {
        &self.inner
    }

    /// Return the wrapped behavior.
    pub fn into_inner(self) -> (inner: B)
        ensures
            inner == self.wrapped(),
    {
        self.inner
    }
}

} // verus!
