//! Handing out deferred exclusive references.

use crate::defer::Defer;
use crate::deferred::Deferred;
use crate::place::Place;
use vstd::prelude::*;

verus! {

/// Implemented by what can hand out a deferred exclusive reference to the
/// target that [`Defer`] hands out shared ones to.
///
/// `defer_mut` can be called any number of times, and all the handles it gave
/// are good at once. They are not references. Whoever writes through one of
/// them presents the place exclusively for that long, so that of two writers
/// to the same element one waits for the other; writers to disjoint parts may
/// split the place and go on side by side.
pub trait DeferMut: Defer {
    /// Obtains a deferred exclusive reference to the target.
    fn defer_mut<'a>(&self) -> (r: Deferred<&'a mut Self::Target>) where Self::Target: 'a
        ensures
            r@ == self.deferred(),
    ;
}

impl<E> DeferMut for [E] {
    fn defer_mut<'a>(&self) -> (r: Deferred<&'a mut [E]>) where [E]: 'a {
        Deferred::from_raw_mut(self.addr_of().cast_mut())
    }
}

impl<E, const N: usize> DeferMut for [E; N] {
    fn defer_mut<'a>(&self) -> (r: Deferred<&'a mut [E; N]>) where [E; N]: 'a {
        Deferred::from_raw_mut(self.addr_of().cast_mut())
    }
}

/// An exclusive handle hands out exclusive handles to its own target.
impl<T: ?Sized> DeferMut for Deferred<&mut T> {
    fn defer_mut<'a>(&self) -> (r: Deferred<&'a mut T>) where T: 'a {
        Deferred::from_raw_mut(self.as_mut_ptr())
    }
}

} // verus!
